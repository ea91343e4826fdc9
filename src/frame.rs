//! Assembling response frames from the chunks that timed reads deliver.

use vstd::prelude::*;
use crate::codec::terminator;
use crate::text::{chars_of, contains, ends_with, has_infix, has_suffix, push_str};

verus! {

/// The size of one read; a shorter read ends a frame.
pub const BUFFER_SIZE: usize = 512;

/// The text that lossy UTF-8 decoding gives for some bytes.
pub uninterp spec fn lossy_text_of(b: Seq<u8>) -> Seq<char>;

/// Relies on `String::from_utf8_lossy`: decodes the bytes, replacing invalid
/// sequences; the result depends on the bytes alone, and no bytes give no text.
#[verifier::external_body]
fn lossy_text(b: &[u8]) -> (r: String)
    ensures
        r@ == lossy_text_of(b@),
        b@.len() == 0 ==> r@.len() == 0,
{
    String::from_utf8_lossy(b).into_owned()
}

/// Whether text accumulated so far, after a read of `n` bytes, is a whole frame:
/// the read was short, or the text holds a status and ends with the terminator.
pub open spec fn frame_done(acc: Seq<char>, n: nat) -> bool {
    n < BUFFER_SIZE || (contains(acc, "error id="@) && ends_with(acc, terminator()))
}

/// The bytes of a frame that is still arriving.
pub struct FrameReader {
    pub pending: String,
}

impl FrameReader {
    pub fn new() -> (r: Self)
        ensures
            r.pending@.len() == 0,
    {
        FrameReader { pending: String::new() }
    }

    /// Takes one chunk that a read delivered. Returns the frame once it is whole
    /// (no frame where it is empty); otherwise keeps the text for the next chunk.
    pub fn on_chunk(&mut self, chunk: &[u8]) -> (r: Option<String>)
        ensures
            ({
                let acc = old(self).pending@ + lossy_text_of(chunk@);
                if frame_done(acc, chunk@.len()) {
                    final(self).pending@.len() == 0 && if acc.len() == 0 {
                        r is None
                    } else {
                        r matches Some(f) && f@ == acc
                    }
                } else {
                    r is None && final(self).pending@ == acc
                }
            }),
    {
        let text = lossy_text(chunk);
        let mut acc = String::new();
        std::mem::swap(&mut acc, &mut self.pending);
        push_str(&mut acc, text.as_str());
        let cs = chars_of(acc.as_str());
        let done = chunk.len() < BUFFER_SIZE || (has_infix(&cs, &chars_of("error id="))
            && has_suffix(&cs, &chars_of("\r\n")));
        if done {
            if acc.as_str().is_empty() {
                None
            } else {
                Some(acc)
            }
        } else {
            self.pending = acc;
            None
        }
    }

    /// A read that timed out: no frame this cycle, and what has arrived is kept.
    pub fn on_timeout(&mut self) -> (r: Option<String>)
        ensures
            r is None,
            final(self).pending@ == old(self).pending@,
    {
        None
    }
}

} // verus!
