//! Proofs about whole sequences of I/O outcomes on one connection.
//!
//! A connection's life between accept and teardown is a sequence of
//! read and write outcomes, each applied by [`read_step`] or
//! [`write_step`]. The lemmas here state the echo guarantees over any
//! such sequence: what the transport accepted plus what is still queued
//! is always exactly what the peer sent, byte for byte and in order.

use vstd::prelude::*;

use crate::connection::ConnModel;
use crate::connection::ReadOutcome;
use crate::connection::WriteOutcome;
use crate::connection::read_step;
use crate::connection::write_step;

verus! {

/// One observed I/O outcome on a connection's socket.
pub enum ConnEvent {
    Read(ReadOutcome),
    Write(WriteOutcome),
}

/// One transition: the next connection state, and the bytes the
/// transport accepted (delivered to the peer) in this step.
pub open spec fn step(c: ConnModel, e: ConnEvent) -> (ConnModel, Seq<u8>) {
    match e {
        ConnEvent::Read(o) => (read_step(c, o).0, Seq::empty()),
        ConnEvent::Write(o) => {
            let (m, d, a) = write_step(c, o);
            (m, d)
        },
    }
}

/// A write outcome may not claim more bytes than are queued.
pub open spec fn event_valid(c: ConnModel, e: ConnEvent) -> bool {
    match e {
        ConnEvent::Write(WriteOutcome::Wrote(n)) => n <= c.send_buffer.len(),
        _ => true,
    }
}

/// Every event in the sequence is valid in the state it is applied to.
pub open spec fn events_valid(c: ConnModel, evs: Seq<ConnEvent>) -> bool
    decreases evs.len(),
{
    evs.len() == 0 || (event_valid(c, evs[0]) && events_valid(step(c, evs[0]).0, evs.drop_first()))
}

/// The state after applying a whole sequence of events.
pub open spec fn run(c: ConnModel, evs: Seq<ConnEvent>) -> ConnModel
    decreases evs.len(),
{
    if evs.len() == 0 {
        c
    } else {
        run(step(c, evs[0]).0, evs.drop_first())
    }
}

/// All bytes the transport accepted over the sequence, in order.
pub open spec fn delivered(c: ConnModel, evs: Seq<ConnEvent>) -> Seq<u8>
    decreases evs.len(),
{
    if evs.len() == 0 {
        Seq::empty()
    } else {
        step(c, evs[0]).1 + delivered(step(c, evs[0]).0, evs.drop_first())
    }
}

/// All bytes the peer sent over the sequence, in order.
pub open spec fn received(evs: Seq<ConnEvent>) -> Seq<u8>
    decreases evs.len(),
{
    if evs.len() == 0 {
        Seq::empty()
    } else {
        (match evs[0] {
            ConnEvent::Read(ReadOutcome::Data(d)) => d@,
            _ => Seq::<u8>::empty(),
        }) + received(evs.drop_first())
    }
}

/// A sequence of writable notifications alone: no read outcomes.
pub open spec fn no_reads(evs: Seq<ConnEvent>) -> bool {
    forall|i: int| 0 <= i < evs.len() ==> !((#[trigger] evs[i]) is Read)
}

proof fn lemma_concat_assoc(a: Seq<u8>, b: Seq<u8>, c: Seq<u8>)
    ensures
        (a + b) + c == a + (b + c),
{
    assert((a + b) + c =~= a + (b + c));
}

/// The books always balance: the bytes delivered so far plus the bytes
/// still queued are exactly the bytes queued at the start plus the
/// bytes received — nothing is duplicated, dropped or reordered by any
/// mix of reads, full, partial or refused writes, errors included.
pub proof fn lemma_echo_balance(c: ConnModel, evs: Seq<ConnEvent>)
    requires
        events_valid(c, evs),
    ensures
        delivered(c, evs) + run(c, evs).send_buffer == c.send_buffer + received(evs),
    decreases evs.len(),
{
    if evs.len() == 0 {
        assert(delivered(c, evs) + run(c, evs).send_buffer =~= c.send_buffer + received(evs));
    } else {
        let e = evs[0];
        let rest = evs.drop_first();
        let c1 = step(c, e).0;
        let d0 = step(c, e).1;
        let r0 = (match e {
            ConnEvent::Read(ReadOutcome::Data(d)) => d@,
            _ => Seq::<u8>::empty(),
        });
        lemma_echo_balance(c1, rest);
        let x = delivered(c1, rest);
        let y = run(c1, rest).send_buffer;
        let z = received(rest);
        assert(delivered(c, evs) == d0 + x);
        assert(run(c, evs) == run(c1, rest));
        assert(received(evs) == r0 + z);
        assert(x + y == c1.send_buffer + z);
        // What this step handed to the peer plus what stays queued is
        // what was queued plus what this step received.
        assert(d0 + c1.send_buffer =~= c.send_buffer + r0);
        lemma_concat_assoc(d0, x, y);
        lemma_concat_assoc(d0, c1.send_buffer, z);
        lemma_concat_assoc(c.send_buffer, r0, z);
    }
}

/// Echo fidelity: starting with an empty queue, once the queue is empty
/// again every byte the peer sent has been delivered back, in order —
/// whatever interleaving of reads and (full, partial or refused) writes
/// happened in between.
pub proof fn lemma_echo_fidelity(c: ConnModel, evs: Seq<ConnEvent>)
    requires
        c.send_buffer == Seq::<u8>::empty(),
        events_valid(c, evs),
        run(c, evs).send_buffer == Seq::<u8>::empty(),
    ensures
        delivered(c, evs) == received(evs),
{
    lemma_echo_balance(c, evs);
    assert(delivered(c, evs) + run(c, evs).send_buffer =~= delivered(c, evs));
    assert(c.send_buffer + received(evs) =~= received(evs));
}

/// Under writable notifications alone nothing new is received.
pub proof fn lemma_no_reads_received_empty(evs: Seq<ConnEvent>)
    requires
        no_reads(evs),
    ensures
        received(evs) == Seq::<u8>::empty(),
    decreases evs.len(),
{
    if evs.len() > 0 {
        let rest = evs.drop_first();
        assert forall|i: int| 0 <= i < rest.len() implies !((#[trigger] rest[i]) is Read) by {
            assert(rest[i] == evs[i + 1]);
        }
        lemma_no_reads_received_empty(rest);
        assert(received(evs) =~= Seq::<u8>::empty());
    }
}

/// A partially flushed queue is still delivered: over any sequence of
/// writable notifications alone, the bytes delivered followed by the
/// bytes still queued are exactly the bytes that were pending — the
/// unsent remainder reaches the peer byte for byte, with no
/// duplication or loss.
pub proof fn lemma_pending_drained_in_order(c: ConnModel, evs: Seq<ConnEvent>)
    requires
        events_valid(c, evs),
        no_reads(evs),
    ensures
        delivered(c, evs) + run(c, evs).send_buffer == c.send_buffer,
{
    lemma_echo_balance(c, evs);
    lemma_no_reads_received_empty(evs);
    assert(c.send_buffer + received(evs) =~= c.send_buffer);
}

/// Writable interest tracks pending bytes: a full write of the queue
/// removes writable-interest, and any write outcome that leaves bytes
/// pending keeps writable-interest set.
pub proof fn lemma_writable_interest(c: ConnModel, o: WriteOutcome)
    requires
        c.inv(),
        (o matches WriteOutcome::Wrote(n) ==> n <= c.send_buffer.len()),
    ensures
        ({
            let (m, d, a) = write_step(c, o);
            &&& ((o matches WriteOutcome::Wrote(n) && n == c.send_buffer.len()) ==> !m.writable)
            &&& (m.send_buffer.len() > 0 ==> m.writable)
        }),
{
}

/// Every step preserves the connection invariant: writable-interest is
/// requested while bytes are queued, readable-interest while open.
pub proof fn lemma_step_preserves_inv(c: ConnModel, e: ConnEvent)
    requires
        c.inv(),
    ensures
        step(c, e).0.inv(),
{
}

/// The connection invariant holds in every state a sequence of events
/// reaches.
pub proof fn lemma_run_preserves_inv(c: ConnModel, evs: Seq<ConnEvent>)
    requires
        c.inv(),
    ensures
        run(c, evs).inv(),
    decreases evs.len(),
{
    if evs.len() > 0 {
        lemma_step_preserves_inv(c, evs[0]);
        lemma_run_preserves_inv(step(c, evs[0]).0, evs.drop_first());
    }
}

} // verus!
