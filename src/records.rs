//! The typed values of the protocol: status, errors, client listings and events.

use vstd::prelude::*;
use crate::query::{field_of, int_field, opt_i64, parse_fields, fields_of, text_field};
use crate::text::push_int;

verus! {

/// A command failure: the status of a response with a non-zero code, a missing
/// result line (code -1), a local or decoding failure (code -2), or a request
/// that the connection answered with nothing (code -3).
#[derive(Clone, Debug)]
pub struct QueryError {
    pub code: i32,
    pub message: String,
}

pub type QueryResult<T> = Result<T, QueryError>;

/// A record that reads from one group of `key=value` fields.
pub trait FromQueryString: Sized + View {
    /// The record that a text gives, or `None` where it does not read.
    spec fn from_text(s: Seq<char>) -> Option<Self::V>;

    /// Reads one record; a text that does not read gives an error with code -2.
    fn from_query(data: &str) -> (r: QueryResult<Self>)
        ensures
            match r {
                Ok(v) => Self::from_text(data@) == Some(v@),
                Err(e) => Self::from_text(data@) is None && e.code == -2,
            },
    ;
}

impl QueryError {
    /// The error for a response that lacks the expected result line.
    pub fn static_empty_response() -> (r: Self)
        ensures
            r.code == -1,
            r.message@ == "Expect result but none found."@,
    {
        QueryError { code: -1, message: String::from_str("Expect result but none found.") }
    }

    /// The error for a request that the connection answered with nothing.
    pub fn empty_reply() -> (r: Self)
        ensures
            r.code == -3,
            r.message@ == "Return data is None"@,
    {
        QueryError { code: -3, message: String::from_str("Return data is None") }
    }

    /// An error of this side (transport or decoding), code -2.
    pub fn local(message: String) -> (r: Self)
        ensures
            r.code == -2,
            r.message@ == message@,
    {
        QueryError { code: -2, message }
    }

    pub fn code(&self) -> (r: i32)
        ensures
            r == self.code,
    {
        self.code
    }

    pub fn message(&self) -> (r: &String)
        ensures
            r@ == self.message@,
    {
        &self.message
    }

    /// `message(code)`.
    pub fn describe(&self) -> (r: String)
        ensures
            r@ == self.message@ + "("@ + crate::text::int_text(self.code as int) + ")"@,
    {
        let mut s = self.message.clone();
        crate::text::push_str(&mut s, "(");
        push_int(&mut s, self.code as i64);
        crate::text::push_str(&mut s, ")");
        s
    }
}

/// The decoded status line of a response; `id == 0` is success.
#[derive(Clone, Debug)]
pub struct QueryStatus {
    pub id: i32,
    pub msg: String,
}

impl Default for QueryStatus {
    /// The success status `id=0 msg=ok`.
    fn default() -> (r: Self)
        ensures
            r.id == 0,
            r.msg@ == "ok"@,
    {
        QueryStatus { id: 0, msg: String::from_str("ok") }
    }
}

impl From<QueryStatus> for QueryError {
    fn from(status: QueryStatus) -> (r: Self) {
        QueryError { code: status.id, message: status.msg }
    }
}

impl vstd::std_specs::convert::FromSpecImpl<QueryStatus> for QueryError {
    open spec fn obeys_from_spec() -> bool {
        true
    }

    open spec fn from_spec(status: QueryStatus) -> QueryError {
        QueryError { code: status.id, message: status.msg }
    }
}

impl From<WebQueryStatus> for QueryStatus {
    fn from(status: WebQueryStatus) -> (r: Self) {
        QueryStatus { id: status.code, msg: status.message }
    }
}

impl vstd::std_specs::convert::FromSpecImpl<WebQueryStatus> for QueryStatus {
    open spec fn obeys_from_spec() -> bool {
        true
    }

    open spec fn from_spec(status: WebQueryStatus) -> QueryStatus {
        QueryStatus { id: status.code, msg: status.message }
    }
}

impl QueryStatus {
    pub fn id(&self) -> (r: i32)
        ensures
            r == self.id,
    {
        self.id
    }

    pub fn msg(&self) -> (r: &String)
        ensures
            r@ == self.msg@,
    {
        &self.msg
    }

    /// The failure that this status stands for.
    pub fn into_err(self) -> (r: QueryError)
        ensures
            r.code == self.id,
            r.message@ == self.msg@,
    {
        QueryError::from(self)
    }

    /// `Ok(ret)` on success, else the error of the status.
    pub fn into_result<T>(self, ret: T) -> (r: QueryResult<T>)
        ensures
            self.id == 0 ==> r == Ok::<T, QueryError>(ret),
            self.id != 0 ==> (r matches Err(e) && e.code == self.id && e.message@ == self.msg@),
    {
        if self.id == 0 {
            return Ok(ret);
        }
        Err(self.into_err())
    }
}

/// A status in the `code`/`message` shape.
#[derive(Clone, Debug)]
pub struct WebQueryStatus {
    pub code: i32,
    pub message: String,
}

impl WebQueryStatus {
    pub fn into_status(self) -> (r: QueryStatus)
        ensures
            r.id == self.code,
            r.msg@ == self.message@,
    {
        QueryStatus::from(self)
    }
}

/// What a client entry of a listing holds.
pub struct ClientView {
    pub clid: i64,
    pub cid: i64,
    pub client_database_id: i64,
    pub client_type: i64,
    pub client_nickname: Seq<char>,
    pub client_unique_identifier: Option<Seq<char>>,
}

/// One entry of a client listing.
#[derive(Clone, Debug)]
pub struct Client {
    pub clid: i64,
    pub cid: i64,
    pub client_database_id: i64,
    pub client_type: i64,
    pub client_nickname: String,
    pub client_unique_identifier: Option<String>,
}

impl View for Client {
    type V = ClientView;

    open spec fn view(&self) -> ClientView {
        ClientView {
            clid: self.clid,
            cid: self.cid,
            client_database_id: self.client_database_id,
            client_type: self.client_type,
            client_nickname: self.client_nickname@,
            client_unique_identifier: match self.client_unique_identifier {
                Some(u) => Some(u@),
                None => None,
            },
        }
    }
}

/// The client entry that the fields give: four integer fields and a nickname are needed.
pub open spec fn client_from_fields(f: Seq<(Seq<char>, Seq<char>)>) -> Option<ClientView> {
    let clid = opt_i64(field_of(f, "clid"@));
    let cid = opt_i64(field_of(f, "cid"@));
    let dbid = opt_i64(field_of(f, "client_database_id"@));
    let ctype = opt_i64(field_of(f, "client_type"@));
    let nick = field_of(f, "client_nickname"@);
    if clid is Some && cid is Some && dbid is Some && ctype is Some && nick is Some {
        Some(
            ClientView {
                clid: clid->Some_0,
                cid: cid->Some_0,
                client_database_id: dbid->Some_0,
                client_type: ctype->Some_0,
                client_nickname: nick->Some_0,
                client_unique_identifier: field_of(f, "client_unique_identifier"@),
            },
        )
    } else {
        None
    }
}

pub open spec fn client_from_text(s: Seq<char>) -> Option<ClientView> {
    match fields_of(s) {
        Some(f) => client_from_fields(f),
        None => None,
    }
}

impl FromQueryString for Client {
    open spec fn from_text(s: Seq<char>) -> Option<ClientView> {
        client_from_text(s)
    }

    /// Reads one client entry.
    fn from_query(data: &str) -> (r: QueryResult<Client>) {
        let fields = match parse_fields(data) {
            Ok(f) => f,
            Err(e) => return Err(QueryError::local(e.1)),
        };
        let clid = int_field(&fields, "clid");
        let cid = int_field(&fields, "cid");
        let dbid = int_field(&fields, "client_database_id");
        let ctype = int_field(&fields, "client_type");
        let nick = text_field(&fields, "client_nickname");
        let uid = text_field(&fields, "client_unique_identifier");
        match (clid, cid, dbid, ctype, nick) {
            (Some(clid), Some(cid), Some(dbid), Some(ctype), Some(nick)) => {
                let c = Client {
                    clid,
                    cid,
                    client_database_id: dbid,
                    client_type: ctype,
                    client_nickname: nick,
                    client_unique_identifier: uid,
                };
                Ok(c)
            },
            _ => Err(QueryError::local(String::from_str("missing or malformed client field"))),
        }
    }

}

impl Client {
    pub fn client_id(&self) -> (r: i64)
        ensures
            r == self.clid,
    {
        self.clid
    }

    pub fn channel_id(&self) -> (r: i64)
        ensures
            r == self.cid,
    {
        self.cid
    }

    pub fn client_database_id(&self) -> (r: i64)
        ensures
            r == self.client_database_id,
    {
        self.client_database_id
    }

    pub fn client_type(&self) -> (r: i64)
        ensures
            r == self.client_type,
    {
        self.client_type
    }

    /// The unique identifier where the listing gave one, else the database id in decimal.
    pub fn client_unique_identifier(&self) -> (r: String)
        ensures
            match self.client_unique_identifier {
                Some(u) => r@ == u@,
                None => r@ == crate::text::int_text(self.client_database_id as int),
            },
    {
        match &self.client_unique_identifier {
            Some(u) => u.clone(),
            None => {
                let mut s = String::new();
                push_int(&mut s, self.client_database_id);
                s
            },
        }
    }

    pub fn client_nickname(&self) -> (r: &str)
        ensures
            r@ == self.client_nickname@,
    {
        self.client_nickname.as_str()
    }
}

/// A client joined.
#[derive(Clone, Debug)]
pub struct NotifyClientEnterView {
    pub client_id: i64,
    pub client_nickname: String,
    pub client_unique_identifier: String,
    pub client_country: String,
}

/// What a join event holds: id, nickname, unique identifier, country.
pub type EnterFields = (i64, Seq<char>, Seq<char>, Seq<char>);

pub open spec fn enter_from_fields(f: Seq<(Seq<char>, Seq<char>)>) -> Option<EnterFields> {
    let id = opt_i64(field_of(f, "clid"@));
    let nick = field_of(f, "client_nickname"@);
    let uid = field_of(f, "client_unique_identifier"@);
    let country = field_of(f, "client_country"@);
    if id is Some && nick is Some && uid is Some && country is Some {
        Some((id->Some_0, nick->Some_0, uid->Some_0, country->Some_0))
    } else {
        None
    }
}

pub open spec fn enter_from_text(s: Seq<char>) -> Option<EnterFields> {
    match fields_of(s) {
        Some(f) => enter_from_fields(f),
        None => None,
    }
}

impl View for NotifyClientEnterView {
    type V = EnterFields;

    open spec fn view(&self) -> EnterFields {
        (self.client_id, self.client_nickname@, self.client_unique_identifier@, self.client_country@)
    }
}

impl FromQueryString for NotifyClientEnterView {
    open spec fn from_text(s: Seq<char>) -> Option<EnterFields> {
        enter_from_text(s)
    }

    /// Reads a join event line.
    fn from_query(data: &str) -> (r: QueryResult<NotifyClientEnterView>) {
        let fields = match parse_fields(data) {
            Ok(f) => f,
            Err(e) => return Err(QueryError::local(e.1)),
        };
        let id = int_field(&fields, "clid");
        let nick = text_field(&fields, "client_nickname");
        let uid = text_field(&fields, "client_unique_identifier");
        let country = text_field(&fields, "client_country");
        match (id, nick, uid, country) {
            (Some(id), Some(nick), Some(uid), Some(country)) => Ok(
                NotifyClientEnterView {
                    client_id: id,
                    client_nickname: nick,
                    client_unique_identifier: uid,
                    client_country: country,
                },
            ),
            _ => Err(QueryError::local(String::from_str("missing or malformed enter field"))),
        }
    }

}

impl NotifyClientEnterView {
    pub fn client_id(&self) -> (r: i64)
        ensures
            r == self.client_id,
    {
        self.client_id
    }

    pub fn client_nickname(&self) -> (r: &str)
        ensures
            r@ == self.client_nickname@,
    {
        self.client_nickname.as_str()
    }

    pub fn client_country(&self) -> (r: &str)
        ensures
            r@ == self.client_country@,
    {
        self.client_country.as_str()
    }

    pub fn client_unique_identifier(&self) -> (r: &str)
        ensures
            r@ == self.client_unique_identifier@,
    {
        self.client_unique_identifier.as_str()
    }
}

/// A client left; the reason may be empty.
#[derive(Clone, Debug)]
pub struct NotifyClientLeftView {
    pub client_id: i64,
    pub reason: String,
}

pub open spec fn left_from_fields(f: Seq<(Seq<char>, Seq<char>)>) -> Option<(i64, Seq<char>)> {
    match opt_i64(field_of(f, "clid"@)) {
        Some(id) => Some(
            (
                id,
                match field_of(f, "reasonmsg"@) {
                    Some(t) => t,
                    None => Seq::<char>::empty(),
                },
            ),
        ),
        None => None,
    }
}

pub open spec fn left_from_text(s: Seq<char>) -> Option<(i64, Seq<char>)> {
    match fields_of(s) {
        Some(f) => left_from_fields(f),
        None => None,
    }
}

impl View for NotifyClientLeftView {
    type V = (i64, Seq<char>);

    open spec fn view(&self) -> (i64, Seq<char>) {
        (self.client_id, self.reason@)
    }
}

impl FromQueryString for NotifyClientLeftView {
    open spec fn from_text(s: Seq<char>) -> Option<(i64, Seq<char>)> {
        left_from_text(s)
    }

    /// Reads a leave event line; a missing reason reads as empty.
    fn from_query(data: &str) -> (r: QueryResult<NotifyClientLeftView>) {
        let fields = match parse_fields(data) {
            Ok(f) => f,
            Err(e) => return Err(QueryError::local(e.1)),
        };
        match int_field(&fields, "clid") {
            Some(id) => {
                let reason = match text_field(&fields, "reasonmsg") {
                    Some(t) => t,
                    None => String::new(),
                };
                Ok(NotifyClientLeftView { client_id: id, reason })
            },
            None => Err(QueryError::local(String::from_str("missing or malformed leave field"))),
        }
    }

}

impl NotifyClientLeftView {
    pub fn client_id(&self) -> (r: i64)
        ensures
            r == self.client_id,
    {
        self.client_id
    }

    pub fn reason(&self) -> (r: &str)
        ensures
            r@ == self.reason@,
    {
        self.reason.as_str()
    }
}

} // verus!
