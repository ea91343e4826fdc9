//! Commands out, status lines and records in. No I/O.

use vstd::prelude::*;
use crate::query::{field_of, int32_field, opt_i32, parse_fields, fields_of, text_field};
use crate::records::{FromQueryString, QueryError, QueryResult, QueryStatus};
use crate::text::{
    chars_of, has_prefix, push_str, split_chars, split_on, starts_with, string_of,
    sub_chars, trim, trim_chars, views,
};

verus! {

/// The line terminator that ends each command.
pub open spec fn terminator() -> Seq<char> {
    "\r\n"@
}

/// What begins a status line.
pub open spec fn status_marker() -> Seq<char> {
    "error "@
}

/// `name`, each argument after a space, then the terminator.
pub open spec fn command_text(name: Seq<char>, args: Seq<Seq<char>>) -> Seq<char>
    decreases args.len(),
{
    if args.len() == 0 {
        name + terminator()
    } else {
        let head = command_text(name, args.drop_last());
        head.take(head.len() - terminator().len()) + " "@ + args.last() + terminator()
    }
}

pub open spec fn string_views(v: Seq<String>) -> Seq<Seq<char>> {
    v.map_values(|s: String| s@)
}

/// Builds a command line.
pub fn encode_command(name: &str, args: &Vec<String>) -> (r: String)
    ensures
        r@ == command_text(name@, string_views(args@)),
{
    let mut s = String::from_str(name);
    let mut i: usize = 0;
    while i < args.len()
        invariant
            i <= args.len(),
            s@ + terminator() == command_text(name@, string_views(args@.take(i as int))),
        decreases args.len() - i,
    {
        let ghost before = s@;
        push_str(&mut s, " ");
        push_str(&mut s, args[i].as_str());
        proof {
            let a = string_views(args@.take(i + 1));
            assert(a.drop_last() =~= string_views(args@.take(i as int)));
            assert(a.last() == args@[i as int]@);
            let head = command_text(name@, a.drop_last());
            assert(head.take(head.len() - terminator().len()) =~= before);
            assert(s@ + terminator() =~= before + " "@ + a.last() + terminator());
        }
        i += 1;
    }
    proof {
        assert(args@.take(args.len() as int) =~= args@);
    }
    push_str(&mut s, "\r\n");
    s
}

/// The first line whose trimmed text starts with the status marker, with the marker cut off.
pub open spec fn first_status(lines: Seq<Seq<char>>) -> Option<Seq<char>>
    decreases lines.len(),
{
    if lines.len() == 0 {
        None
    } else if starts_with(trim(lines[0]), status_marker()) {
        Some(trim(lines[0]).skip(status_marker().len() as int))
    } else {
        first_status(lines.drop_first())
    }
}

/// The first line that, trimmed, is neither empty nor a status line.
pub open spec fn first_record(lines: Seq<Seq<char>>) -> Option<Seq<char>>
    decreases lines.len(),
{
    if lines.len() == 0 {
        None
    } else if trim(lines[0]).len() > 0 && !starts_with(trim(lines[0]), status_marker()) {
        Some(trim(lines[0]))
    } else {
        first_record(lines.drop_first())
    }
}

pub open spec fn status_text(text: Seq<char>) -> Option<Seq<char>> {
    first_status(split_on(text, '\n'))
}

pub open spec fn record_text(text: Seq<char>) -> Option<Seq<char>> {
    first_record(split_on(text, '\n'))
}

/// The `(id, msg)` of a response, where it has a readable status line.
pub open spec fn status_of(text: Seq<char>) -> Option<(i32, Seq<char>)> {
    match status_text(text) {
        None => None,
        Some(p) => match fields_of(p) {
            None => None,
            Some(f) => {
                let id = opt_i32(field_of(f, "id"@));
                let msg = field_of(f, "msg"@);
                if id is Some && msg is Some {
                    Some((id->Some_0, msg->Some_0))
                } else {
                    None
                }
            },
        },
    }
}

/// Finds the status payload or the record line of a response.
fn scan_lines(text: &str, want_status: bool) -> (r: Option<String>)
    ensures
        match r {
            Some(t) => if want_status {
                status_text(text@) == Some(t@)
            } else {
                record_text(text@) == Some(t@)
            },
            None => if want_status {
                status_text(text@) is None
            } else {
                record_text(text@) is None
            },
        },
{
    let cs = chars_of(text);
    let lines = split_chars(&cs, '\n');
    let marker = chars_of("error ");
    let ghost all = split_on(text@, '\n');
    let mut i: usize = 0;
    proof {
        assert(all.subrange(0, all.len() as int) =~= all);
    }
    while i < lines.len()
        invariant
            i <= lines.len(),
            views(lines@) == all,
            marker@ == status_marker(),
            all == split_on(text@, '\n'),
            want_status ==> first_status(all) == first_status(
                all.subrange(i as int, all.len() as int),
            ),
            !want_status ==> first_record(all) == first_record(
                all.subrange(i as int, all.len() as int),
            ),
        decreases lines.len() - i,
    {
        let ghost rest = all.subrange(i as int, all.len() as int);
        assert(rest[0] == lines@[i as int]@);
        assert(rest.drop_first() =~= all.subrange(i + 1, all.len() as int));
        let t = trim_chars(&lines[i]);
        let is_status = has_prefix(&t, &marker);
        if want_status && is_status {
            let p = sub_chars(&t, marker.len(), t.len());
            assert(p@ =~= trim(rest[0]).skip(status_marker().len() as int));
            return Some(string_of(&p));
        }
        if !want_status && t.len() > 0 && !is_status {
            return Some(string_of(&t));
        }
        i += 1;
    }
    None
}

/// Decodes the status line of a response. A response with no status line, or one
/// that does not read as `id=<i32> msg=<text>`, gives an error with code -2.
pub fn decode_status(text: &str) -> (r: Result<QueryStatus, QueryError>)
    ensures
        match r {
            Ok(st) => status_of(text@) == Some((st.id, st.msg@)),
            Err(e) => status_of(text@) is None && e.code == -2,
        },
{
    let payload = match scan_lines(text, true) {
        Some(p) => p,
        None => return Err(QueryError::local(String::from_str("no status line in response"))),
    };
    let fields = match parse_fields(payload.as_str()) {
        Ok(f) => f,
        Err(e) => return Err(QueryError::local(e.1)),
    };
    let id = int32_field(&fields, "id");
    let msg = text_field(&fields, "msg");
    match (id, msg) {
        (Some(id), Some(msg)) => Ok(QueryStatus { id, msg }),
        _ => Err(QueryError::local(String::from_str("malformed status line"))),
    }
}

/// Reduces a response to success or failure by its status line: `Ok` for `id=0`,
/// the status as the error for any other id, code -2 where the status cannot be read.
pub fn check_status(text: &str) -> (r: QueryResult<()>)
    ensures
        match status_of(text@) {
            Some((id, msg)) => if id == 0 {
                r is Ok
            } else {
                (r matches Err(e) && e.code == id && e.message@ == msg)
            },
            None => (r matches Err(e) && e.code == -2),
        },
{
    match decode_status(text) {
        Ok(st) => st.into_result(()),
        Err(e) => Err(e),
    }
}

pub open spec fn record_views<T: View>(v: Seq<T>) -> Seq<T::V> {
    v.map_values(|x: T| x@)
}

/// The records that the `|`-separated groups give, or `None` where one does not read.
pub open spec fn records_of<T: FromQueryString>(groups: Seq<Seq<char>>) -> Option<Seq<T::V>>
    decreases groups.len(),
{
    if groups.len() == 0 {
        Some(Seq::<T::V>::empty())
    } else {
        match (records_of::<T>(groups.drop_last()), T::from_text(groups.last())) {
            (Some(cs), Some(c)) => Some(cs.push(c)),
            _ => None,
        }
    }
}

proof fn lemma_records_prefix<T: FromQueryString>(gs: Seq<Seq<char>>, k: int)
    requires
        0 <= k <= gs.len(),
        records_of::<T>(gs.take(k)) is None,
    ensures
        records_of::<T>(gs) is None,
    decreases gs.len(),
{
    if k == gs.len() {
        assert(gs.take(k) =~= gs);
    } else {
        assert(gs.drop_last().take(k) =~= gs.take(k));
        lemma_records_prefix::<T>(gs.drop_last(), k);
    }
}

/// Decodes the records of a response: the status decides first; on success the
/// first record line is split at `|` into records, and a response without a
/// record line gives `None`.
pub fn decode_records<T: FromQueryString>(text: &str) -> (r: QueryResult<Option<Vec<T>>>)
    ensures
        match status_of(text@) {
            None => (r matches Err(e) && e.code == -2),
            Some((id, msg)) => if id != 0 {
                (r matches Err(e) && e.code == id && e.message@ == msg)
            } else {
                match record_text(text@) {
                    None => (r matches Ok(None)),
                    Some(line) => match records_of::<T>(split_on(line, '|')) {
                        Some(cs) => (r matches Ok(Some(v)) && record_views(v@) == cs),
                        None => (r matches Err(e) && e.code == -2),
                    },
                }
            },
        },
{
    match check_status(text) {
        Ok(()) => {},
        Err(e) => return Err(e),
    }
    let line = match scan_lines(text, false) {
        Some(l) => l,
        None => return Ok(None),
    };
    let cs = chars_of(line.as_str());
    let groups = split_chars(&cs, '|');
    let ghost gs = split_on(line@, '|');
    let mut out: Vec<T> = Vec::new();
    let mut i: usize = 0;
    proof {
        assert(gs.take(0) =~= Seq::<Seq<char>>::empty());
        assert(record_views(out@) =~= Seq::<T::V>::empty());
    }
    while i < groups.len()
        invariant
            i <= groups.len(),
            views(groups@) == gs,
            gs == split_on(line@, '|'),
            record_text(text@) == Some(line@),
            status_of(text@) is Some && status_of(text@)->Some_0.0 == 0,
            records_of::<T>(gs.take(i as int)) == Some(record_views(out@)),
        decreases groups.len() - i,
    {
        let g = string_of(&groups[i]);
        proof {
            assert(gs.take(i + 1).drop_last() =~= gs.take(i as int));
            assert(gs.take(i + 1).last() == groups@[i as int]@);
        }
        let ghost before = out@;
        match T::from_query(g.as_str()) {
            Ok(c) => {
                out.push(c);
                assert(record_views(out@) =~= record_views(before).push(c@));
            },
            Err(e) => {
                proof {
                    assert(T::from_text(groups@[i as int]@) is None);
                    assert(records_of::<T>(gs.take(i + 1)) is None);
                    lemma_records_prefix::<T>(gs, i + 1);
                }
                return Err(e);
            },
        }
        i += 1;
    }
    proof {
        assert(gs.take(groups.len() as int) =~= gs);
    }
    Ok(Some(out))
}

} // verus!
