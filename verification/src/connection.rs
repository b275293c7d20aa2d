//! The per-connection read/write state machine.
//!
//! A `Connection` owns the echo state of one accepted socket: the bytes
//! still queued for the peer, the readiness interest that must stay
//! registered with the polling primitive, and the terminal `closed` flag.
//! The socket itself lives with the unverified I/O layer, which performs
//! each read and write and reports what happened as a [`ReadOutcome`] or
//! [`WriteOutcome`]; the state machine here decides what that outcome
//! means and whether another round is wanted.

use vstd::prelude::*;

verus! {

/// The readiness conditions a connection asks the polling primitive for.
///
/// Hangup notifications are always requested at (re-)registration time and
/// carry no state here; the two flags below are the ones the state machine
/// turns on and off.
#[derive(Clone, Copy, PartialEq, Eq, Structural, Debug)]
pub struct Interest {
    pub readable: bool,
    pub writable: bool,
}

/// What one non-blocking read attempt on the connection's socket produced.
pub enum ReadOutcome {
    /// The read returned zero bytes: the peer closed its write side.
    Closed,
    /// The read returned these bytes (the drained receive buffer).
    Data(Vec<u8>),
    /// The read would have blocked: nothing more is available right now.
    WouldBlock,
    /// The read failed with a real I/O error.
    Failed,
}

/// What one non-blocking write attempt of the send buffer produced.
pub enum WriteOutcome {
    /// The write accepted this many bytes from the front of the send buffer.
    Wrote(usize),
    /// The write would have blocked: nothing was accepted this round.
    WouldBlock,
    /// The write failed with a real I/O error.
    Failed,
}

/// The mathematical value of a `Connection`: its queued bytes as a
/// sequence, both interest flags, the token and the terminal flag.
pub struct ConnModel {
    pub send_buffer: Seq<u8>,
    pub token: usize,
    pub readable: bool,
    pub writable: bool,
    pub closed: bool,
}

impl ConnModel {
    /// The connection invariant: writable-readiness is requested whenever
    /// bytes are queued, and readable-readiness is requested as long as
    /// the connection is open.
    pub open spec fn inv(self) -> bool {
        &&& self.send_buffer.len() > 0 ==> self.writable
        &&& !self.closed ==> self.readable
    }

    /// The state of a just-accepted connection: nothing queued, open,
    /// interested in readable-readiness only.
    pub open spec fn fresh(token: usize) -> ConnModel {
        ConnModel {
            send_buffer: Seq::<u8>::empty(),
            token: token,
            readable: true,
            writable: false,
            closed: false,
        }
    }
}

/// How a connection reacts to one read outcome: the next state, and
/// whether the caller should attempt a further read round.
///
/// Zero bytes or an I/O error close the connection; data is appended to
/// the send buffer (the echo) and asks for a write pass plus another
/// read round, so one edge-triggered notification is drained fully;
/// would-block ends the pass with nothing changed.
pub open spec fn read_step(c: ConnModel, o: ReadOutcome) -> (ConnModel, bool) {
    match o {
        ReadOutcome::Closed => (ConnModel { closed: true, ..c }, false),
        ReadOutcome::Data(d) => (
            ConnModel { send_buffer: c.send_buffer + d@, writable: true, ..c },
            true,
        ),
        ReadOutcome::WouldBlock => (c, false),
        ReadOutcome::Failed => (ConnModel { closed: true, ..c }, false),
    }
}

/// How a connection reacts to one write outcome: the next state, the
/// bytes the transport accepted (delivered to the peer) in this step,
/// and whether the caller should retry the write at once.
///
/// A full write clears the buffer and drops writable-interest; a partial
/// write keeps exactly the unsent suffix, keeps writable-interest and
/// retries; would-block keeps everything and sets writable-interest;
/// an I/O error closes the connection.
pub open spec fn write_step(c: ConnModel, o: WriteOutcome) -> (ConnModel, Seq<u8>, bool) {
    match o {
        WriteOutcome::Wrote(n) => {
            if n < c.send_buffer.len() {
                (
                    ConnModel { send_buffer: c.send_buffer.skip(n as int), writable: true, ..c },
                    c.send_buffer.take(n as int),
                    true,
                )
            } else {
                (
                    ConnModel { send_buffer: Seq::empty(), writable: false, ..c },
                    c.send_buffer,
                    false,
                )
            }
        },
        WriteOutcome::WouldBlock => (ConnModel { writable: true, ..c }, Seq::empty(), false),
        WriteOutcome::Failed => (ConnModel { closed: true, ..c }, Seq::empty(), false),
    }
}

/// One peer's echo state: the bytes queued for it, the registered
/// interest, its registry token, and whether it has terminated.
pub struct Connection {
    /// Bytes queued for the peer, FIFO; only a successfully written
    /// prefix ever leaves the front.
    pub send_buffer: Vec<u8>,
    /// This connection's identity in the registry; assigned at insertion
    /// and never changed.
    pub token: usize,
    /// The interest set that must be (re-)registered with the polling
    /// primitive after each handling pass.
    pub interest: Interest,
    /// True once the peer disconnected or an unrecoverable I/O error
    /// occurred; the reactor removes such a connection right after the
    /// pass that set this.
    pub closed: bool,
}

impl View for Connection {
    type V = ConnModel;

    open spec fn view(&self) -> ConnModel {
        ConnModel {
            send_buffer: self.send_buffer@,
            token: self.token,
            readable: self.interest.readable,
            writable: self.interest.writable,
            closed: self.closed,
        }
    }
}

impl Connection {
    /// Well-formedness: the model invariant holds of this connection.
    pub open spec fn wf(&self) -> bool {
        self@.inv()
    }

    /// A fresh connection for the given token: nothing queued, open,
    /// interested in readable-readiness only.
    pub fn new(token: usize) -> (c: Connection)
        ensures
            c.wf(),
            c@ == ConnModel::fresh(token),
    {
        Connection {
            send_buffer: Vec::new(),
            token,
            interest: Interest { readable: true, writable: false },
            closed: false,
        }
    }

    /// Whether this connection has terminated.
    pub fn is_closed(&self) -> (b: bool)
        ensures
            b == self@.closed,
    {
        self.closed
    }

    /// How many bytes are still queued for the peer.
    pub fn pending_len(&self) -> (n: usize)
        ensures
            n == self@.send_buffer.len(),
    {
        self.send_buffer.len()
    }

    /// Apply one read outcome; returns whether another read round should
    /// follow. Data is appended to the send buffer unchanged and in
    /// order — this is the echo.
    pub fn on_read(&mut self, outcome: ReadOutcome) -> (again: bool)
        ensures
            ({
                let (m, a) = read_step(old(self)@, outcome);
                final(self)@ == m && again == a
            }),
            old(self).wf() ==> final(self).wf(),
    {
        match outcome {
            ReadOutcome::Closed => {
                self.closed = true;
                false
            },
            ReadOutcome::Data(mut d) => {
                self.send_buffer.append(&mut d);
                self.interest.writable = true;
                true
            },
            ReadOutcome::WouldBlock => false,
            ReadOutcome::Failed => {
                self.closed = true;
                false
            },
        }
    }

    /// Apply one write outcome; returns whether the write should be
    /// retried at once. A partial write drops exactly the written prefix
    /// and keeps writable-interest; a full write clears the buffer and
    /// removes writable-interest; would-block keeps the buffer and sets
    /// writable-interest; an error closes the connection.
    pub fn on_write(&mut self, outcome: WriteOutcome) -> (again: bool)
        requires
            (match outcome {
                WriteOutcome::Wrote(n) => n <= old(self)@.send_buffer.len(),
                _ => true,
            }),
        ensures
            ({
                let (m, d, a) = write_step(old(self)@, outcome);
                final(self)@ == m && again == a
            }),
            old(self).wf() ==> final(self).wf(),
    {
        match outcome {
            WriteOutcome::Wrote(n) => {
                if n < self.send_buffer.len() {
                    let rest = self.send_buffer.split_off(n);
                    self.send_buffer = rest;
                    self.interest.writable = true;
                    true
                } else {
                    self.send_buffer.clear();
                    self.interest.writable = false;
                    false
                }
            },
            WriteOutcome::WouldBlock => {
                self.interest.writable = true;
                false
            },
            WriteOutcome::Failed => {
                self.closed = true;
                false
            },
        }
    }
}

} // verus!
