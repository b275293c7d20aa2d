//! The event-loop driver: dispatching readiness notifications and
//! keeping the connection registry in step with connection lifecycles.
//!
//! The unverified binary owns the listening socket and the polling
//! primitive; for each delivered notification it asks [`dispatch`] what
//! the notification means, performs the socket work, and reports every
//! outcome to the `Reactor` methods here, which carry out the state
//! transitions on the registry.

use vstd::prelude::*;

use crate::connection::Connection;
use crate::connection::ConnModel;
use crate::connection::ReadOutcome;
use crate::connection::WriteOutcome;
use crate::connection::read_step;
use crate::connection::write_step;
use crate::registry::Registry;

verus! {

/// The reserved token of the listening socket. Connection tokens are
/// slot indices below [`MAX_CONNECTIONS`], so they never collide with it.
pub const SERVER_TOKEN: usize = 10_000_000;

/// How many concurrent connections the registry is sized for.
pub const MAX_CONNECTIONS: usize = 100_000;

/// What a readiness notification asks of the event loop.
#[derive(Clone, Copy, PartialEq, Eq, Structural, Debug)]
pub enum Dispatch {
    /// A hangup: remove the connection for this token unconditionally.
    RemoveConn,
    /// The listener is readable: accept pending connections until the
    /// accept would block.
    Accept,
    /// A connection socket is readable: run its read pass.
    ConnReadable,
    /// A connection socket is writable: run its write pass.
    ConnWritable,
    /// A writable notification for the listener token: an invariant
    /// violation, fatal to the process.
    FatalListenerWritable,
    /// A notification carrying none of the flags: nothing to do.
    Nothing,
}

/// The dispatch decision for one notification. A hangup wins over
/// everything; then readable is served (accept on the listener token,
/// a read pass on a connection token); only a notification without
/// readable has its writable flag served, and a writable listener is
/// rejected as fatal.
pub open spec fn dispatch_spec(token: usize, readable: bool, writable: bool, hangup: bool) -> Dispatch {
    if hangup {
        Dispatch::RemoveConn
    } else if readable && token == SERVER_TOKEN {
        Dispatch::Accept
    } else if readable {
        Dispatch::ConnReadable
    } else if writable && token != SERVER_TOKEN {
        Dispatch::ConnWritable
    } else if writable {
        Dispatch::FatalListenerWritable
    } else {
        Dispatch::Nothing
    }
}

/// Translate one readiness notification into the operation it calls for.
pub fn dispatch(token: usize, readable: bool, writable: bool, hangup: bool) -> (d: Dispatch)
    ensures
        d == dispatch_spec(token, readable, writable, hangup),
{
    if hangup {
        Dispatch::RemoveConn
    } else if readable && token == SERVER_TOKEN {
        Dispatch::Accept
    } else if readable {
        Dispatch::ConnReadable
    } else if writable && token != SERVER_TOKEN {
        Dispatch::ConnWritable
    } else if writable {
        Dispatch::FatalListenerWritable
    } else {
        Dispatch::Nothing
    }
}

/// The reactor state: the registry of live connections. Its abstract
/// value is the registry's token-to-connection map.
pub struct Reactor {
    conns: Registry,
}

impl View for Reactor {
    type V = Map<int, Connection>;

    closed spec fn view(&self) -> Map<int, Connection> {
        self.conns@
    }
}

impl Reactor {
    /// Well-formedness: the registry is well-formed and sized for
    /// [`MAX_CONNECTIONS`], so every token it assigns stays below the
    /// listener's reserved token.
    pub closed spec fn wf(&self) -> bool {
        &&& self.conns.wf()
        &&& self.conns.capacity_spec() == MAX_CONNECTIONS
    }

    /// No token can be assigned: the registry is at capacity.
    pub closed spec fn spec_is_full(&self) -> bool {
        self.conns.spec_is_full()
    }

    /// How many more connections the registry can take.
    pub closed spec fn room(&self) -> int {
        self.conns.room()
    }

    /// A reactor with no connections.
    pub fn new() -> (r: Reactor)
        ensures
            r.wf(),
            r@ == Map::<int, Connection>::empty(),
            r.room() == MAX_CONNECTIONS,
    {
        Reactor { conns: Registry::new(MAX_CONNECTIONS) }
    }

    /// Whether `tok` currently resolves to a live connection.
    pub fn contains(&self, tok: usize) -> (b: bool)
        ensures
            b == self@.contains_key(tok as int),
    {
        self.conns.contains(tok)
    }

    /// Look up the connection registered under `tok`, if any.
    pub fn get_conn(&self, tok: usize) -> (r: Option<&Connection>)
        ensures
            (r is Some <==> self@.contains_key(tok as int)),
            (match r {
                Some(c) => *c == self@[tok as int],
                None => true,
            }),
    {
        self.conns.get(tok)
    }

    /// Register one successfully accepted connection: a fresh
    /// `Connection` is inserted under a fresh token, which the caller
    /// must register with the polling primitive for readable interest
    /// in edge-triggered mode. `None` exactly when the registry is
    /// full — resource exhaustion, fatal to the process.
    pub fn accept_one(&mut self) -> (r: Option<usize>)
        requires
            old(self).wf(),
        ensures
            final(self).wf(),
            (r is None <==> old(self).spec_is_full()),
            (old(self).spec_is_full() <==> old(self).room() <= 0),
            (match r {
                Some(tok) => {
                    &&& tok != SERVER_TOKEN
                    &&& !old(self)@.contains_key(tok as int)
                    &&& (forall|t: int| #![auto]
                        final(self)@.contains_key(t) <==> (old(self)@.contains_key(t)
                            || t == tok as int))
                    &&& (forall|t: int| #![auto]
                        old(self)@.contains_key(t) && t != tok as int
                            ==> final(self)@[t] == old(self)@[t])
                    &&& final(self)@[tok as int]@ == ConnModel::fresh(tok)
                    &&& final(self)@[tok as int].wf()
                    &&& final(self).room() == old(self).room() - 1
                },
                None => final(self)@ == old(self)@ && final(self).room() == old(self).room(),
            }),
    {
        match self.conns.next_token() {
            Some(tok) => {
                let conn = Connection::new(tok);
                self.conns.insert(conn);
                Some(tok)
            },
            None => None,
        }
    }

    /// Apply one read outcome to the connection under `tok`; returns
    /// whether the read pass should continue. The connection moves by
    /// [`read_step`]; every other binding is untouched.
    pub fn conn_read_event(&mut self, tok: usize, outcome: ReadOutcome) -> (again: bool)
        requires
            old(self).wf(),
            old(self)@.contains_key(tok as int),
        ensures
            final(self).wf(),
            (forall|t: int| #![auto]
                final(self)@.contains_key(t) <==> old(self)@.contains_key(t)),
            (forall|t: int| #![auto]
                old(self)@.contains_key(t) && t != tok as int
                    ==> final(self)@[t] == old(self)@[t]),
            final(self).room() == old(self).room(),
            ({
                let (m, a) = read_step(old(self)@[tok as int]@, outcome);
                final(self)@[tok as int]@ == m && again == a
            }),
            old(self)@[tok as int].wf() ==> final(self)@[tok as int].wf(),
    {
        let conn = self.conns.get_mut(tok);
        conn.on_read(outcome)
    }

    /// Apply one write outcome to the connection under `tok`; returns
    /// whether the write should be retried at once. The connection
    /// moves by [`write_step`]; every other binding is untouched.
    pub fn conn_write_event(&mut self, tok: usize, outcome: WriteOutcome) -> (again: bool)
        requires
            old(self).wf(),
            old(self)@.contains_key(tok as int),
            (match outcome {
                WriteOutcome::Wrote(n) => n <= old(self)@[tok as int]@.send_buffer.len(),
                _ => true,
            }),
        ensures
            final(self).wf(),
            (forall|t: int| #![auto]
                final(self)@.contains_key(t) <==> old(self)@.contains_key(t)),
            (forall|t: int| #![auto]
                old(self)@.contains_key(t) && t != tok as int
                    ==> final(self)@[t] == old(self)@[t]),
            final(self).room() == old(self).room(),
            ({
                let (m, d, a) = write_step(old(self)@[tok as int]@, outcome);
                final(self)@[tok as int]@ == m && again == a
            }),
            old(self)@[tok as int].wf() ==> final(self)@[tok as int].wf(),
    {
        let conn = self.conns.get_mut(tok);
        conn.on_write(outcome)
    }

    /// Remove the connection under `tok` unconditionally — the hangup
    /// path. The token stops resolving whatever the connection's state,
    /// pending buffered data included; every other binding is untouched.
    pub fn on_hangup(&mut self, tok: usize)
        requires
            old(self).wf(),
        ensures
            final(self).wf(),
            final(self)@ == old(self)@.remove(tok as int),
            final(self).room() == old(self).room() + (if old(self)@.contains_key(tok as int) {
                1int
            } else {
                0int
            }),
    {
        self.conns.remove(tok);
    }

    /// Remove the connection under `tok` if its handling pass left it
    /// closed; returns whether it was removed. Called right after each
    /// pass, so a closed connection never outlives the pass that closed
    /// it.
    pub fn reap_if_closed(&mut self, tok: usize) -> (removed: bool)
        requires
            old(self).wf(),
        ensures
            final(self).wf(),
            removed == (old(self)@.contains_key(tok as int) && old(self)@[tok as int]@.closed),
            removed ==> final(self)@ == old(self)@.remove(tok as int) && final(self).room()
                == old(self).room() + 1,
            !removed ==> final(self)@ == old(self)@ && final(self).room() == old(self).room(),
    {
        let close_it = match self.conns.get(tok) {
            Some(c) => c.is_closed(),
            None => false,
        };
        if close_it {
            self.conns.remove(tok);
            true
        } else {
            false
        }
    }
}

} // verus!
