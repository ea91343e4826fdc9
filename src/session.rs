//! One request in flight at a time on the session's stream.

use vstd::prelude::*;
use crate::codec::{encode_command, command_text, string_views};
use crate::records::{QueryError, QueryResult};

verus! {

/// The request state of a session: the command whose response is awaited, if any.
pub struct RequestGate {
    pub in_flight: Option<String>,
}

impl RequestGate {
    pub fn new() -> (r: Self)
        ensures
            r.in_flight is None,
    {
        RequestGate { in_flight: None }
    }

    /// Starts a request: hands back the command to write. While another request
    /// awaits its response, the new one is refused and nothing changes.
    pub fn begin(&mut self, command: String) -> (r: QueryResult<String>)
        ensures
            old(self).in_flight is Some ==> (r matches Err(e) && e.code == -2),
            old(self).in_flight is Some ==> final(self).in_flight == old(self).in_flight,
            old(self).in_flight is None ==> (r matches Ok(c) && c@ == command@),
            old(self).in_flight is None ==> (final(self).in_flight matches Some(c) && c@ == command@),
    {
        if self.in_flight.is_some() {
            return Err(QueryError::local(String::from_str("a request is already in flight")));
        }
        let c = command.clone();
        self.in_flight = Some(command);
        Ok(c)
    }

    /// Ends the request with what the read gave: the response, or the error of
    /// code -3 where the connection produced nothing.
    pub fn complete(&mut self, frame: Option<String>) -> (r: QueryResult<String>)
        ensures
            final(self).in_flight is None,
            match frame {
                Some(t) => r matches Ok(x) && x@ == t@,
                None => r matches Err(e) && e.code == -3 && e.message@ == "Return data is None"@,
            },
    {
        self.in_flight = None;
        match frame {
            Some(t) => Ok(t),
            None => Err(QueryError::empty_reply()),
        }
    }
}

/// `login <user> <password>`.
pub fn login_command(user: &str, password: &str) -> (r: String)
    ensures
        r@ == command_text("login"@, seq![user@, password@]),
{
    let mut args: Vec<String> = Vec::new();
    args.push(String::from_str(user));
    args.push(String::from_str(password));
    assert(string_views(args@) =~= seq![user@, password@]);
    encode_command("login", &args)
}

/// `use <server id>`.
pub fn select_server_command(server_id: i64) -> (r: String)
    ensures
        r@ == command_text("use"@, seq![crate::text::int_text(server_id as int)]),
{
    let mut id = String::new();
    crate::text::push_int(&mut id, server_id);
    let mut args: Vec<String> = Vec::new();
    args.push(id);
    assert(string_views(args@) =~= seq![crate::text::int_text(server_id as int)]);
    encode_command("use", &args)
}

fn bare_command(name: &str) -> (r: String)
    ensures
        r@ == command_text(name@, Seq::<Seq<char>>::empty()),
{
    let args: Vec<String> = Vec::new();
    assert(string_views(args@) =~= Seq::<Seq<char>>::empty());
    encode_command(name, &args)
}

/// `servernotifyregister event=server`.
pub fn register_events_command() -> (r: String)
    ensures
        r@ == command_text("servernotifyregister"@, seq!["event=server"@]),
{
    let mut args: Vec<String> = Vec::new();
    args.push(String::from_str("event=server"));
    assert(string_views(args@) =~= seq!["event=server"@]);
    encode_command("servernotifyregister", &args)
}

/// `clientlist`.
pub fn list_clients_command() -> (r: String)
    ensures
        r@ == command_text("clientlist"@, Seq::<Seq<char>>::empty()),
{
    bare_command("clientlist")
}

/// `quit`.
pub fn logout_command() -> (r: String)
    ensures
        r@ == command_text("quit"@, Seq::<Seq<char>>::empty()),
{
    bare_command("quit")
}

/// `whoami`, the cheap probe that proves the connection alive.
pub fn probe_command() -> (r: String)
    ensures
        r@ == command_text("whoami"@, Seq::<Seq<char>>::empty()),
{
    bare_command("whoami")
}

} // verus!
