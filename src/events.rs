//! Turning event lines into notifications, and notifications into text.

use vstd::prelude::*;
use crate::cache::{listed, CacheMap, ClientCache};
use crate::codec::string_views;
use crate::records::{
    enter_from_text, left_from_text, FromQueryString, NotifyClientEnterView, NotifyClientLeftView,
    QueryResult,
};
use crate::text::{
    chars_of, has_prefix, int_text, push_int, push_str, split_chars, split_on, starts_with,
    string_of, trim, trim_chars, views,
};

verus! {

/// A message for the notifier: a join, a leave, or the sentinel that ends it.
#[derive(Debug)]
pub enum Notification {
    /// time, client id, unique identifier, nickname, country
    Enter(String, i64, String, String, String),
    /// time, client id, nickname, reason
    Left(String, i64, String, String),
    Terminate,
}

pub enum NoteView {
    Enter(Seq<char>, i64, Seq<char>, Seq<char>, Seq<char>),
    Left(Seq<char>, i64, Seq<char>, Seq<char>),
    Terminate,
}

impl View for Notification {
    type V = NoteView;

    open spec fn view(&self) -> NoteView {
        match self {
            Notification::Enter(t, id, uid, nick, c) => NoteView::Enter(t@, *id, uid@, nick@, c@),
            Notification::Left(t, id, nick, reason) => NoteView::Left(t@, *id, nick@, reason@),
            Notification::Terminate => NoteView::Terminate,
        }
    }
}

impl Notification {
    /// The join message for `view` at `time`.
    pub fn from_enter(time: String, view: NotifyClientEnterView) -> (r: Self)
        ensures
            r@ == NoteView::Enter(
                time@,
                view.client_id,
                view.client_unique_identifier@,
                view.client_nickname@,
                view.client_country@,
            ),
    {
        Notification::Enter(
            time,
            view.client_id,
            view.client_unique_identifier,
            view.client_nickname,
            view.client_country,
        )
    }

    /// The leave message for `view` at `time`, under the cached `nickname`.
    pub fn from_left(time: String, view: &NotifyClientLeftView, nickname: String) -> (r: Self)
        ensures
            r@ == NoteView::Left(time@, view.client_id, nickname@, view.reason@),
    {
        Notification::Left(time, view.client_id, nickname, view.reason.clone())
    }
}

pub open spec fn note_views(v: Seq<Notification>) -> Seq<NoteView> {
    v.map_values(|n: Notification| n@)
}

/// Accounts that never produce a notification: the query account itself and
/// those whose identifier or nickname stands on the ignore list.
pub open spec fn is_ignored(uid: Seq<char>, nick: Seq<char>, list: Seq<Seq<char>>) -> bool {
    uid == "ServerQuery"@ || list.contains(uid) || list.contains(nick)
}

pub open spec fn enter_keyword() -> Seq<char> {
    "notifycliententerview"@
}

pub open spec fn left_keyword() -> Seq<char> {
    "notifyclientleftview"@
}

/// The effect of one (trimmed) line: the next cache and the message it gives, or
/// `None` where a line with an event keyword does not decode.
pub open spec fn line_step(m: CacheMap, list: Seq<Seq<char>>, time: Seq<char>, line: Seq<char>) -> Option<(CacheMap, Option<NoteView>)> {
    if starts_with(line, enter_keyword()) {
        match enter_from_text(line) {
            None => None,
            Some((id, nick, uid, country)) => {
                let ign = is_ignored(uid, nick, list);
                Some(
                    (
                        m.insert(id, (nick, ign)),
                        if ign {
                            None
                        } else {
                            Some(NoteView::Enter(time, id, uid, nick, country))
                        },
                    ),
                )
            },
        }
    } else if starts_with(line, left_keyword()) {
        match left_from_text(line) {
            None => None,
            Some((id, reason)) => if !m.contains_key(id) {
                Some((m, None))
            } else if m[id].1 {
                Some((m.remove(id), None))
            } else {
                Some((m.remove(id), Some(NoteView::Left(time, id, m[id].0, reason))))
            },
        }
    } else {
        Some((m, None))
    }
}

/// The effect of the lines in order, stopping at the first that does not decode.
pub open spec fn lines_step(m: CacheMap, list: Seq<Seq<char>>, time: Seq<char>, lines: Seq<Seq<char>>) -> Option<(CacheMap, Seq<NoteView>)>
    decreases lines.len(),
{
    if lines.len() == 0 {
        Some((m, Seq::<NoteView>::empty()))
    } else {
        match lines_step(m, list, time, lines.drop_last()) {
            None => None,
            Some((m1, out)) => match line_step(m1, list, time, trim(lines.last())) {
                None => None,
                Some((m2, n)) => Some(
                    (
                        m2,
                        match n {
                            Some(x) => out.push(x),
                            None => out,
                        },
                    ),
                ),
            },
        }
    }
}

/// Applies one line to the cache and returns the message it gives.
pub fn classify_line(
    cache: &mut ClientCache,
    ignore_list: &Vec<String>,
    time: &String,
    line: &str,
) -> (r: QueryResult<Option<Notification>>)
    ensures
        match line_step(old(cache).view(), string_views(ignore_list@), time@, line@) {
            Some((m, n)) => (r matches Ok(x) && final(cache).view() == m && match x {
                Some(y) => n == Some(y@),
                None => n is None,
            }),
            None => (r matches Err(e) && e.code == -2),
        },
{
    let cs = chars_of(line);
    if has_prefix(&cs, &chars_of("notifycliententerview")) {
        let view = match NotifyClientEnterView::from_query(line) {
            Ok(v) => v,
            Err(e) => return Err(e),
        };
        let server_query = String::from_str("ServerQuery");
        let ign = view.client_unique_identifier == server_query || listed(
            ignore_list,
            &view.client_unique_identifier,
        ) || listed(ignore_list, &view.client_nickname);
        let _ = cache.on_enter(view.client_id, view.client_nickname.clone(), ign);
        if ign {
            return Ok(None);
        }
        return Ok(Some(Notification::from_enter(time.clone(), view)));
    }
    if has_prefix(&cs, &chars_of("notifyclientleftview")) {
        let view = match NotifyClientLeftView::from_query(line) {
            Ok(v) => v,
            Err(e) => return Err(e),
        };
        return match cache.on_left(view.client_id) {
            None => Ok(None),
            Some(entry) => if entry.ignored {
                Ok(None)
            } else {
                Ok(Some(Notification::from_left(time.clone(), &view, entry.nickname)))
            },
        };
    }
    Ok(None)
}

/// Applies each line of a frame in order and collects the messages; stops at
/// the first event line that does not decode.
pub fn classify_frame(
    cache: &mut ClientCache,
    ignore_list: &Vec<String>,
    time: &String,
    frame: &str,
) -> (r: QueryResult<Vec<Notification>>)
    ensures
        match lines_step(old(cache).view(), string_views(ignore_list@), time@, split_on(frame@, '\n')) {
            Some((m, out)) => (r matches Ok(v) && final(cache).view() == m && note_views(v@) == out),
            None => (r matches Err(e) && e.code == -2),
        },
{
    let cs = chars_of(frame);
    let lines = split_chars(&cs, '\n');
    let ghost ls = split_on(frame@, '\n');
    let ghost list = string_views(ignore_list@);
    let mut out: Vec<Notification> = Vec::new();
    let mut i: usize = 0;
    proof {
        assert(ls.take(0) =~= Seq::<Seq<char>>::empty());
        assert(note_views(out@) =~= Seq::<NoteView>::empty());
    }
    while i < lines.len()
        invariant
            i <= lines.len(),
            views(lines@) == ls,
            ls == split_on(frame@, '\n'),
            list == string_views(ignore_list@),
            lines_step(old(cache).view(), list, time@, ls.take(i as int)) == Some(
                (cache.view(), note_views(out@)),
            ),
        decreases lines.len() - i,
    {
        proof {
            assert(ls.take(i + 1).drop_last() =~= ls.take(i as int));
            assert(ls.take(i + 1).last() == lines@[i as int]@);
        }
        let t = string_of(&trim_chars(&lines[i]));
        let ghost before = out@;
        let ghost cache_before = cache.view();
        assert(t@ == trim(ls.take(i + 1).last()));
        match classify_line(cache, ignore_list, time, t.as_str()) {
            Ok(Some(n)) => {
                out.push(n);
                assert(note_views(out@) =~= note_views(before).push(n@));
            },
            Ok(None) => {},
            Err(e) => {
                proof {
                    assert(line_step(cache_before, list, time@, t@) is None);
                    assert(lines_step(old(cache).view(), list, time@, ls.take(i + 1)) is None);
                    lemma_lines_prefix(old(cache).view(), list, time@, ls, i + 1);
                }
                return Err(e);
            },
        }
        i += 1;
    }
    proof {
        assert(ls.take(lines.len() as int) =~= ls);
    }
    Ok(out)
}

proof fn lemma_lines_prefix(m: CacheMap, list: Seq<Seq<char>>, time: Seq<char>, ls: Seq<Seq<char>>, k: int)
    requires
        0 <= k <= ls.len(),
        lines_step(m, list, time, ls.take(k)) is None,
    ensures
        lines_step(m, list, time, ls) is None,
    decreases ls.len(),
{
    if k == ls.len() {
        assert(ls.take(k) =~= ls);
    } else {
        assert(ls.drop_last().take(k) =~= ls.take(k));
        lemma_lines_prefix(m, list, time, ls.drop_last(), k);
    }
}

/// The flag glyph that the country library gives for a code, or `None`.
pub uninterp spec fn country_flag_of(code: Seq<char>) -> Option<Seq<char>>;

/// Relies on `country_emoji::flag`: the flag for an ISO country code (or a country
/// name), `None` where it knows none; the result depends on the input alone.
#[verifier::external_body]
fn country_flag(code: &str) -> (r: Option<String>)
    ensures
        match r {
            Some(f) => country_flag_of(code@) == Some(f@),
            None => country_flag_of(code@) is None,
        },
{
    country_emoji::flag(code)
}

/// The text of a message, given the flag to show for a join (the country code where none).
pub open spec fn note_text(n: NoteView, flag: Option<Seq<char>>) -> Seq<char> {
    match n {
        NoteView::Enter(t, id, uid, nick, country) => "["@ + t + "] <b>"@ + nick + "</b>(<code>"@
            + uid + "</code>:"@ + int_text(id as int) + ")["@ + match flag {
            Some(f) => f,
            None => country,
        } + "] joined"@,
        NoteView::Left(t, id, nick, reason) => "["@ + t + "] <b>"@ + nick + "</b>("@ + int_text(
            id as int,
        ) + ") left"@ + if reason.len() == 0 {
            Seq::<char>::empty()
        } else {
            " ("@ + reason + ")"@
        },
        NoteView::Terminate => Seq::<char>::empty(),
    }
}

impl Notification {
    /// The text of a join or leave message, with `flag` shown for the country.
    pub fn render_with_flag(&self, flag: Option<String>) -> (r: String)
        requires
            !(self@ is Terminate),
        ensures
            r@ == note_text(
                self@,
                match flag {
                    Some(f) => Some(f@),
                    None => None,
                },
            ),
    {
        let mut s = String::from_str("[");
        match self {
            Notification::Enter(t, id, uid, nick, country) => {
                push_str(&mut s, t.as_str());
                push_str(&mut s, "] <b>");
                push_str(&mut s, nick.as_str());
                push_str(&mut s, "</b>(<code>");
                push_str(&mut s, uid.as_str());
                push_str(&mut s, "</code>:");
                push_int(&mut s, *id);
                push_str(&mut s, ")[");
                match &flag {
                    Some(f) => push_str(&mut s, f.as_str()),
                    None => push_str(&mut s, country.as_str()),
                }
                push_str(&mut s, "] joined");
            },
            Notification::Left(t, id, nick, reason) => {
                push_str(&mut s, t.as_str());
                push_str(&mut s, "] <b>");
                push_str(&mut s, nick.as_str());
                push_str(&mut s, "</b>(");
                push_int(&mut s, *id);
                push_str(&mut s, ") left");
                if !reason.as_str().is_empty() {
                    push_str(&mut s, " (");
                    push_str(&mut s, reason.as_str());
                    push_str(&mut s, ")");
                }
            },
            Notification::Terminate => {},
        }
        assert(s@ =~= note_text(
            self@,
            match flag {
                Some(f) => Some(f@),
                None => None,
            },
        ));
        s
    }

    /// The text of a join or leave message; a join shows the flag of its country
    /// where one is known, else the country code.
    pub fn render(&self) -> (r: String)
        requires
            !(self@ is Terminate),
        ensures
            r@ == note_text(
                self@,
                match self@ {
                    NoteView::Enter(_, _, _, _, c) => country_flag_of(c),
                    _ => None,
                },
            ),
    {
        let flag = match self {
            Notification::Enter(_, _, _, _, country) => country_flag(country.as_str()),
            _ => None,
        };
        self.render_with_flag(flag)
    }
}

} // verus!
