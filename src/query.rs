//! The flat `key=value` field format of the protocol, read through
//! `serde_teamspeak_querystring`.

use vstd::prelude::*;
use crate::text::{i64_value, push_str};

verus! {

#[verifier::external_type_specification]
#[verifier::external_body]
pub struct ExQueryStringError(serde_teamspeak_querystring::Error);

/// The fields that the query-string reader finds in a text, keys in ascending
/// order, or `None` where it rejects the text.
pub uninterp spec fn query_fields_of(s: Seq<char>) -> Option<Seq<(Seq<char>, Seq<char>)>>;

/// Whether every escape of `s` is whole: each backslash, with the character
/// it escapes, forms a pair whose second character is ASCII and neither a
/// space nor `=`, so that no key or value ends inside an escape.
pub open spec fn escapes_whole(s: Seq<char>) -> bool
    decreases s.len(),
{
    if s.len() == 0 {
        true
    } else if s[0] == '\\' {
        s.len() >= 2 && s[1] <= '\x7f' && s[1] != ' ' && s[1] != '=' && escapes_whole(
            s.skip(2),
        )
    } else {
        escapes_whole(s.skip(1))
    }
}

/// The fields of a text: those the reader finds where its escapes are whole,
/// none otherwise.
pub open spec fn fields_of(s: Seq<char>) -> Option<Seq<(Seq<char>, Seq<char>)>> {
    if escapes_whole(s) {
        query_fields_of(s)
    } else {
        None
    }
}

pub open spec fn pair_views(v: Seq<(String, String)>) -> Seq<(Seq<char>, Seq<char>)> {
    v.map_values(|p: (String, String)| (p.0@, p.1@))
}

/// Relies on `serde_teamspeak_querystring::from_str` read into a `BTreeMap<String, String>`:
/// the text is split at spaces into `key=value` pairs (a bare key has the empty value),
/// keys and values are unescaped, and the last value of a repeated key is kept.
/// A key or value that ends in an unpaired backslash, or a backslash before a
/// non-ASCII character, makes the reader panic; such texts are left out.
#[verifier::external_body]
fn read_fields(s: &str) -> (r: Result<Vec<(String, String)>, serde_teamspeak_querystring::Error>)
    requires
        escapes_whole(s@),
    ensures
        match r {
            Ok(v) => query_fields_of(s@) == Some(pair_views(v@)),
            Err(_) => query_fields_of(s@) is None,
        },
{
    serde_teamspeak_querystring::from_str::<std::collections::BTreeMap<String, String>>(s).map(
        |m| m.into_iter().collect(),
    )
}

/// Relies on the `Debug` form of `serde_teamspeak_querystring::Error`, for a message.
#[verifier::external_body]
fn describe_error(e: &serde_teamspeak_querystring::Error) -> String {
    format!("{:?}", e)
}

/// The value of the first field named `key`.
pub open spec fn field_of(fields: Seq<(Seq<char>, Seq<char>)>, key: Seq<char>) -> Option<Seq<char>>
    decreases fields.len(),
{
    if fields.len() == 0 {
        None
    } else if fields[0].0 == key {
        Some(fields[0].1)
    } else {
        field_of(fields.drop_first(), key)
    }
}

pub open spec fn opt_i64(o: Option<Seq<char>>) -> Option<i64> {
    match o {
        Some(t) => i64_value(t),
        None => None,
    }
}

pub open spec fn opt_i32(o: Option<Seq<char>>) -> Option<i32> {
    match opt_i64(o) {
        Some(v) => if i32::MIN <= v <= i32::MAX {
            Some(v as i32)
        } else {
            None
        },
        None => None,
    }
}

/// Whether every escape of `s` is whole.
pub fn check_escapes(s: &str) -> (r: bool)
    ensures
        r == escapes_whole(s@),
{
    let cs = crate::text::chars_of(s);
    let n = cs.len();
    let mut i: usize = 0;
    proof {
        assert(cs@.skip(0) =~= cs@);
    }
    while i < n
        invariant
            i <= n,
            n == cs.len(),
            cs@ == s@,
            escapes_whole(cs@) == escapes_whole(cs@.skip(i as int)),
        decreases n - i,
    {
        let ghost rest = cs@.skip(i as int);
        assert(rest[0] == cs@[i as int]);
        if cs[i] == '\\' {
            if i + 1 >= n {
                assert(rest.len() < 2);
                return false;
            }
            let c = cs[i + 1];
            assert(rest[1] == c);
            if !(c <= '\x7f' && c != ' ' && c != '=') {
                assert(!escapes_whole(rest));
                return false;
            }
            assert(rest.skip(2) =~= cs@.skip(i + 2));
            i += 2;
        } else {
            assert(rest.skip(1) =~= cs@.skip(i + 1));
            i += 1;
        }
    }
    assert(cs@.skip(n as int) =~= Seq::<char>::empty());
    true
}

/// The fields of `s`; a text with a broken escape, or one the reader rejects,
/// gives an error with code -2.
pub fn parse_fields(s: &str) -> (r: Result<Vec<(String, String)>, (i32, String)>)
    ensures
        match r {
            Ok(v) => fields_of(s@) == Some(pair_views(v@)),
            Err(e) => fields_of(s@) is None && e.0 == -2,
        },
{
    if !check_escapes(s) {
        return Err((-2, String::from_str("Got parser error: broken escape")));
    }
    match read_fields(s) {
        Ok(v) => Ok(v),
        Err(e) => {
            let mut m = String::from_str("Got parser error: ");
            let d = describe_error(&e);
            push_str(&mut m, d.as_str());
            Err((-2, m))
        },
    }
}

/// The value of the first field named `key`.
pub fn text_field(fields: &Vec<(String, String)>, key: &str) -> (r: Option<String>)
    ensures
        match r {
            Some(t) => field_of(pair_views(fields@), key@) == Some(t@),
            None => field_of(pair_views(fields@), key@) is None,
        },
{
    let k = String::from_str(key);
    let ghost all = pair_views(fields@);
    let mut i: usize = 0;
    proof {
        assert(all.subrange(0, all.len() as int) =~= all);
    }
    while i < fields.len()
        invariant
            i <= fields.len(),
            all == pair_views(fields@),
            k@ == key@,
            field_of(all, key@) == field_of(all.subrange(i as int, all.len() as int), key@),
        decreases fields.len() - i,
    {
        let ghost rest = all.subrange(i as int, all.len() as int);
        assert(rest[0] == (fields@[i as int].0@, fields@[i as int].1@));
        if fields[i].0 == k {
            return Some(fields[i].1.clone());
        }
        assert(rest.drop_first() =~= all.subrange(i + 1, all.len() as int));
        i += 1;
    }
    None
}

/// The value of the first field named `key`, read as an `i64`.
pub fn int_field(fields: &Vec<(String, String)>, key: &str) -> (r: Option<i64>)
    ensures
        r == opt_i64(field_of(pair_views(fields@), key@)),
{
    match text_field(fields, key) {
        Some(t) => {
            let cs = crate::text::chars_of(t.as_str());
            crate::text::parse_i64(&cs)
        },
        None => None,
    }
}

/// The value of the first field named `key`, read as an `i32`.
pub fn int32_field(fields: &Vec<(String, String)>, key: &str) -> (r: Option<i32>)
    ensures
        r == opt_i32(field_of(pair_views(fields@), key@)),
{
    match int_field(fields, key) {
        Some(v) => if -2147483648 <= v && v <= 2147483647 {
            Some(v as i32)
        } else {
            None
        },
        None => None,
    }
}

} // verus!
