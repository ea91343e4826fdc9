//! The decisions of the observer task, as a state machine: the caller performs
//! each action it returns and reports back what came of it.

use vstd::prelude::*;
use crate::cache::{seeded, ClientCache};
use crate::codec::{
    check_status, decode_records, record_text, record_views, records_of, status_of, string_views,
};
use crate::events::{classify_frame, lines_step, note_views, Notification};
use crate::records::{Client, QueryError, QueryResult};
use crate::session::{list_clients_command, logout_command, probe_command, register_events_command};
use crate::text::split_on;

verus! {

#[derive(PartialEq, Eq, Structural)]
pub enum Phase {
    Listing,
    Subscribing,
    Polling,
    Draining,
    Terminated,
}

/// What the caller does next.
pub enum Action {
    /// Write this command, read its response, and pass it to the matching handler.
    Request(String),
    /// Call `on_tick` with the current state of the cancellation signal.
    Tick,
    /// Read one frame and pass it to `on_frame`.
    Read,
    /// Write this probe (its reply arrives as a frame), then call `on_tick`.
    Probe(String),
    /// Queue these messages in order, sleep the poll interval, then call `on_tick`.
    Deliver(Vec<Notification>),
    /// Write the quit command (failures are only logged), then call `on_logged_out`.
    Logout(String),
    /// Queue the `Terminate` sentinel and end the task.
    Finish,
    /// Nothing more: the task has ended.
    Stop,
}

pub struct Observer {
    pub phase: Phase,
    pub cache: ClientCache,
    pub ignore_list: Vec<String>,
    pub keepalive_due: bool,
}

impl Observer {
    pub fn new(ignore_list: Vec<String>) -> (r: Self)
        ensures
            r.phase == Phase::Listing,
            r.cache.view().len() == 0,
            r.ignore_list@ == ignore_list@,
            !r.keepalive_due,
    {
        Observer { phase: Phase::Listing, cache: ClientCache::new(), ignore_list, keepalive_due: false }
    }

    /// The first action: list the connected clients.
    pub fn start(&self) -> (r: Action)
        ensures
            r matches Action::Request(c) && c@ == crate::codec::command_text(
                "clientlist"@,
                Seq::<Seq<char>>::empty(),
            ),
    {
        Action::Request(list_clients_command())
    }

    /// The listing arrived: seed the cache and subscribe. A response without a
    /// result line is an error (code -1), as is any failed status or bad record.
    pub fn on_listing(&mut self, response: &str) -> (r: QueryResult<Action>)
        requires
            old(self).phase == Phase::Listing,
        ensures
            match (status_of(response@), record_text(response@)) {
                (Some((0, _)), Some(line)) => match records_of::<Client>(split_on(line, '|')) {
                    Some(cs) => (r matches Ok(Action::Request(c)) && c@ == crate::codec::command_text(
                        "servernotifyregister"@,
                        seq!["event=server"@],
                    )) && final(self).phase == Phase::Subscribing && exists|v: Seq<Client>|
                        record_views(v) == cs && final(self).cache.view() == seeded(
                        old(self).cache.view(),
                        string_views(old(self).ignore_list@),
                        v,
                    ),
                    None => (r matches Err(e) && e.code == -2),
                },
                (Some((0, _)), None) => (r matches Err(e) && e.code == -1),
                (Some((id, msg)), _) => (r matches Err(e) && e.code == id && e.message@ == msg),
                (None, _) => (r matches Err(e) && e.code == -2),
            },
            r is Err ==> final(self).phase == old(self).phase,
    {
        match decode_records::<Client>(response) {
            Ok(Some(clients)) => {
                self.cache.seed(&clients, &self.ignore_list);
                self.phase = Phase::Subscribing;
                Ok(Action::Request(register_events_command()))
            },
            Ok(None) => Err(QueryError::static_empty_response()),
            Err(e) => Err(e),
        }
    }

    /// The subscription was answered: on success, start polling.
    pub fn on_subscribed(&mut self, response: &str) -> (r: QueryResult<Action>)
        requires
            old(self).phase == Phase::Subscribing,
        ensures
            match status_of(response@) {
                Some((0, _)) => (r matches Ok(Action::Tick)) && final(self).phase == Phase::Polling,
                Some((id, msg)) => (r matches Err(e) && e.code == id && e.message@ == msg)
                    && final(self).phase == old(self).phase,
                None => (r matches Err(e) && e.code == -2) && final(self).phase == old(self).phase,
            },
    {
        match check_status(response) {
            Ok(()) => {
                self.phase = Phase::Polling;
                Ok(Action::Tick)
            },
            Err(e) => Err(e),
        }
    }

    /// The keepalive period has passed: the next idle read sends a probe.
    pub fn on_keepalive(&mut self)
        ensures
            final(self).keepalive_due,
            final(self).phase == old(self).phase,
    {
        self.keepalive_due = true;
    }

    /// A poll cycle begins. Once cancellation is seen the task drains: it logs
    /// out; after the end, nothing more is done.
    pub fn on_tick(&mut self, cancelled: bool) -> (r: Action)
        ensures
            old(self).phase == Phase::Polling && cancelled ==> (r matches Action::Logout(c)
                && c@ == crate::codec::command_text("quit"@, Seq::<Seq<char>>::empty()))
                && final(self).phase == Phase::Draining,
            old(self).phase == Phase::Polling && !cancelled ==> (r matches Action::Read)
                && final(self).phase == Phase::Polling,
            old(self).phase == Phase::Terminated ==> (r matches Action::Stop) && final(self).phase
                == Phase::Terminated,
            old(self).phase != Phase::Polling ==> final(self).phase == old(self).phase,
            old(self).phase != Phase::Polling && old(self).phase != Phase::Terminated ==> (
            r matches Action::Stop),
    {
        match self.phase {
            Phase::Polling => if cancelled {
                self.phase = Phase::Draining;
                Action::Logout(logout_command())
            } else {
                Action::Read
            },
            _ => Action::Stop,
        }
    }

    /// A read finished while polling. No frame: probe if the keepalive is due,
    /// else go on to the next cycle. A frame: classify its lines and deliver the messages.
    pub fn on_frame(&mut self, frame: Option<String>, time: &String) -> (r: QueryResult<Action>)
        requires
            old(self).phase == Phase::Polling,
        ensures
            final(self).phase == Phase::Polling,
            final(self).ignore_list@ == old(self).ignore_list@,
            match frame {
                None => if old(self).keepalive_due {
                    (r matches Ok(Action::Probe(c)) && c@ == crate::codec::command_text(
                        "whoami"@,
                        Seq::<Seq<char>>::empty(),
                    )) && !final(self).keepalive_due && final(self).cache.view() == old(self).cache.view()
                } else {
                    (r matches Ok(Action::Tick)) && final(self).cache.view() == old(self).cache.view()
                        && !final(self).keepalive_due
                },
                Some(text) => match lines_step(
                    old(self).cache.view(),
                    string_views(old(self).ignore_list@),
                    time@,
                    split_on(text@, '\n'),
                ) {
                    Some((m, out)) => (r matches Ok(Action::Deliver(v)) && note_views(v@) == out)
                        && final(self).cache.view() == m && final(self).keepalive_due == old(
                        self,
                    ).keepalive_due,
                    None => (r matches Err(e) && e.code == -2),
                },
            },
    {
        match frame {
            None => {
                if self.keepalive_due {
                    self.keepalive_due = false;
                    Ok(Action::Probe(probe_command()))
                } else {
                    Ok(Action::Tick)
                }
            },
            Some(text) => {
                match classify_frame(&mut self.cache, &self.ignore_list, time, text.as_str()) {
                    Ok(notes) => Ok(Action::Deliver(notes)),
                    Err(e) => Err(e),
                }
            },
        }
    }

    /// A step failed: the task still drains, logging out before it ends.
    pub fn on_failure(&mut self) -> (r: Action)
        ensures
            old(self).phase != Phase::Draining && old(self).phase != Phase::Terminated ==> (
            r matches Action::Logout(c) && c@ == crate::codec::command_text(
                "quit"@,
                Seq::<Seq<char>>::empty(),
            )) && final(self).phase == Phase::Draining,
            old(self).phase == Phase::Draining ==> (r matches Action::Finish) && final(self).phase
                == Phase::Terminated,
            old(self).phase == Phase::Terminated ==> (r matches Action::Stop) && final(self).phase
                == Phase::Terminated,
    {
        match self.phase {
            Phase::Terminated => Action::Stop,
            Phase::Draining => {
                self.phase = Phase::Terminated;
                Action::Finish
            },
            _ => {
                self.phase = Phase::Draining;
                Action::Logout(logout_command())
            },
        }
    }

    /// The quit command was written (or failed): end with the sentinel, once.
    pub fn on_logged_out(&mut self) -> (r: Action)
        ensures
            old(self).phase == Phase::Draining ==> (r matches Action::Finish) && final(self).phase
                == Phase::Terminated,
            old(self).phase != Phase::Draining ==> (r matches Action::Stop) && final(self).phase
                == old(self).phase,
    {
        if self.phase == Phase::Draining {
            self.phase = Phase::Terminated;
            Action::Finish
        } else {
            Action::Stop
        }
    }
}

} // verus!
