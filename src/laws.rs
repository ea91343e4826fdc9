//! Properties that relate several operations of the library.

use vstd::prelude::*;
use crate::cache::CacheMap;
use crate::codec::{first_record, first_status, record_text, status_marker, status_of};
use crate::events::{enter_keyword, left_keyword, line_step, lines_step};
use crate::query::{field_of, opt_i32, fields_of};
use crate::records::{enter_from_text, left_from_text};
use crate::text::{split_on, starts_with, trim};

verus! {

proof fn lemma_split_plain(s: Seq<char>, sep: char)
    requires
        !s.contains(sep),
    ensures
        split_on(s, sep) == seq![s],
    decreases s.len(),
{
    if s.len() > 0 {
        assert(!s.drop_last().contains(sep)) by {
            if s.drop_last().contains(sep) {
                let k = choose|k: int| 0 <= k < s.drop_last().len() && s.drop_last()[k] == sep;
                assert(s[k] == sep);
            }
        }
        lemma_split_plain(s.drop_last(), sep);
        assert(s.last() != sep) by {
            assert(s[s.len() - 1] == s.last());
        }
        assert(s.drop_last().push(s.last()) =~= s);
        assert(seq![s.drop_last()].update(0, s.drop_last().push(s.last())) =~= seq![s]);
    } else {
        assert(s =~= Seq::<char>::empty());
    }
}

proof fn lemma_split_two(a: Seq<char>, b: Seq<char>, sep: char)
    requires
        !a.contains(sep),
        !b.contains(sep),
    ensures
        split_on(a + seq![sep] + b, sep) == seq![a, b],
    decreases b.len(),
{
    let s = a + seq![sep] + b;
    if b.len() == 0 {
        assert(s.drop_last() =~= a);
        lemma_split_plain(a, sep);
        assert(b =~= Seq::<char>::empty());
        assert(seq![a].push(Seq::<char>::empty()) =~= seq![a, b]);
    } else {
        assert(!b.drop_last().contains(sep)) by {
            if b.drop_last().contains(sep) {
                let k = choose|k: int| 0 <= k < b.drop_last().len() && b.drop_last()[k] == sep;
                assert(b[k] == sep);
            }
        }
        lemma_split_two(a, b.drop_last(), sep);
        assert(s.drop_last() =~= a + seq![sep] + b.drop_last());
        assert(s.last() == b[b.len() - 1]);
        let head = seq![a, b.drop_last()];
        assert(b.drop_last().push(s.last()) =~= b);
        assert(head.update(1, b.drop_last().push(s.last())) =~= seq![a, b]);
    }
}

/// A success response made of one record line and a status line with `id=0`
/// decodes to success with that status message, and its record line is found
/// as it was written.
pub proof fn success_response_round_trip(
    record: Seq<char>,
    payload: Seq<char>,
    msg: Seq<char>,
)
    requires
        !record.contains('\n'),
        !payload.contains('\n'),
        record.len() > 0,
        trim(record) == record,
        !starts_with(record, status_marker()),
        trim(status_marker() + payload) == status_marker() + payload,
        fields_of(payload) matches Some(f) && opt_i32(field_of(f, "id"@)) == Some(0i32)
            && field_of(f, "msg"@) == Some(msg),
    ensures
        status_of(record + "\n"@ + status_marker() + payload) == Some((0i32, msg)),
        record_text(record + "\n"@ + status_marker() + payload) == Some(record),
{
    let st = status_marker() + payload;
    let text = record + "\n"@ + st;
    assert(status_marker().len() == 6) by {
        reveal_strlit("error ");
    }
    assert(!st.contains('\n')) by {
        if st.contains('\n') {
            let k = choose|k: int| 0 <= k < st.len() && st[k] == '\n';
            reveal_strlit("error ");
            if k >= 6 {
                assert(payload[k - 6] == '\n');
            }
        }
    }
    assert("\n"@ =~= seq!['\n']) by {
        reveal_strlit("\n");
    }
    assert(text =~= record + seq!['\n'] + st);
    assert(record + "\n"@ + status_marker() + payload =~= text);
    lemma_split_two(record, st, '\n');
    let lines = seq![record, st];
    assert(lines.drop_first() =~= seq![st]);
    assert(st.take(status_marker().len() as int) =~= status_marker());
    assert(st.skip(status_marker().len() as int) =~= payload);
    assert(first_status(seq![st]) == Some(payload));
    assert(first_status(lines) == Some(payload));
    assert(first_record(lines) == Some(record));
}

/// A response that is a status line alone holds no record line, so decoding
/// its records gives `None` rather than an empty list.
pub proof fn status_only_response_has_no_records(payload: Seq<char>)
    requires
        !payload.contains('\n'),
        trim(status_marker() + payload) == status_marker() + payload,
    ensures
        record_text(status_marker() + payload) is None,
{
    let st = status_marker() + payload;
    assert(!st.contains('\n')) by {
        if st.contains('\n') {
            let k = choose|k: int| 0 <= k < st.len() && st[k] == '\n';
            reveal_strlit("error ");
            if k >= 6 {
                assert(payload[k - 6] == '\n');
            }
        }
    }
    lemma_split_plain(st, '\n');
    assert(st.take(status_marker().len() as int) =~= status_marker());
    assert(seq![st].drop_first() =~= Seq::<Seq<char>>::empty());
    assert(starts_with(trim(seq![st][0]), status_marker()));
    assert(first_record(Seq::<Seq<char>>::empty()) is None);
    assert(first_record(seq![st]) is None);
}

/// A join of the query account, or of a nickname or identifier on the ignore
/// list, gives no message; the cache still learns it, marked ignored.
pub proof fn ignored_join_is_silent(
    m: CacheMap,
    list: Seq<Seq<char>>,
    time: Seq<char>,
    line: Seq<char>,
)
    requires
        starts_with(line, enter_keyword()),
        enter_from_text(line) matches Some((id, nick, uid, country)) && (uid == "ServerQuery"@
            || list.contains(uid) || list.contains(nick)),
    ensures
        line_step(m, list, time, line) matches Some((m2, n)) && n is None && m2.contains_key(
            enter_from_text(line)->Some_0.0,
        ) && m2[enter_from_text(line)->Some_0.0].1,
{
}

/// The leave of a client that is cached as ignored gives no message and drops it
/// from the cache.
pub proof fn ignored_leave_is_silent(
    m: CacheMap,
    list: Seq<Seq<char>>,
    time: Seq<char>,
    line: Seq<char>,
)
    requires
        starts_with(line, left_keyword()),
        !starts_with(line, enter_keyword()),
        left_from_text(line) matches Some((id, _)) && m.contains_key(id) && m[id].1,
    ensures
        line_step(m, list, time, line) matches Some((m2, n)) && n is None && m2 == m.remove(
            left_from_text(line)->Some_0.0,
        ),
{
}

/// Classifying event lines never yields the `Terminate` sentinel: only the
/// drain step of the observer does.
pub proof fn frames_never_terminate(
    m: CacheMap,
    list: Seq<Seq<char>>,
    time: Seq<char>,
    lines: Seq<Seq<char>>,
)
    ensures
        lines_step(m, list, time, lines) matches Some((_, out)) ==> forall|i: int|
            0 <= i < out.len() ==> !(#[trigger] out[i] is Terminate),
    decreases lines.len(),
{
    if lines.len() > 0 {
        frames_never_terminate(m, list, time, lines.drop_last());
    }
}

} // verus!
