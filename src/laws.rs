//! Properties of the relay that relate several operations, proved over the
//! models that the operations' own contracts use.

use crate::bus::{items, never_lagged, run, BusOp, BusView, Received};
use crate::ingest::{backoff_delay, BrokerEvent, IngestAction, IngestorView, PayloadError};
use crate::session::{Flow, ForwardStep, SessionView};
use vstd::prelude::*;

verus! {

/// Running operations keeps the capacity and the closed mark, only ever
/// appends to the log, and never moves a cursor backwards or past the tail.
pub proof fn lemma_run_frame(v: BusView, cursor: nat, ops: Seq<BusOp>)
    requires
        cursor <= v.log.len(),
    ensures
        ({
            let (w, c, rs) = run(v, cursor, ops);
            &&& w.capacity == v.capacity
            &&& w.closed == v.closed
            &&& w.log.len() >= v.log.len()
            &&& w.log.subrange(0, v.log.len() as int) == v.log
            &&& cursor <= c <= w.log.len()
        }),
    decreases ops.len(),
{
    if ops.len() > 0 {
        lemma_run_frame(v, cursor, ops.drop_last());
        let (v1, c1, rs1) = run(v, cursor, ops.drop_last());
        let (w, c, rs) = run(v, cursor, ops);
        assert(w.log.subrange(0, v.log.len() as int) =~= v.log) by {
            assert(v1.log.subrange(0, v.log.len() as int) == v.log);
        }
    }
}

/// Publishing does not depend on consumers: whatever a subscriber does, and
/// wherever its cursor stands, the bus ends in the same state, the one that
/// the publishes alone make.
pub proof fn lemma_publish_independent_of_consumers(
    v: BusView,
    c1: nat,
    c2: nat,
    ops: Seq<BusOp>,
)
    ensures
        run(v, c1, ops).0 == run(v, c2, ops).0,
    decreases ops.len(),
{
    if ops.len() > 0 {
        lemma_publish_independent_of_consumers(v, c1, c2, ops.drop_last());
    }
}

/// A subscriber that never lags observes exactly the payloads published from
/// its cursor onwards, in publication order and unchanged.
pub proof fn lemma_delivery_in_order(v: BusView, cursor: nat, ops: Seq<BusOp>)
    requires
        cursor <= v.log.len(),
    ensures
        ({
            let (w, c, rs) = run(v, cursor, ops);
            never_lagged(rs) ==> items(rs) == w.log.subrange(cursor as int, c as int)
        }),
    decreases ops.len(),
{
    if ops.len() > 0 {
        let prefix = ops.drop_last();
        lemma_delivery_in_order(v, cursor, prefix);
        lemma_run_frame(v, cursor, prefix);
        let (v1, c1, rs1) = run(v, cursor, prefix);
        let (v2, c2, rs2) = v1.step(c1, ops.last());
        let (w, c, rs) = run(v, cursor, ops);
        if never_lagged(rs) {
            assert forall|i: int| 0 <= i < rs1.len() implies !(#[trigger] rs1[i] is Lagged) by {
                assert(rs[i] == rs1[i]);
            }
            match ops.last() {
                BusOp::Publish(x) => {
                    assert(rs =~= rs1);
                    assert(w.log.subrange(cursor as int, c as int) =~= v1.log.subrange(
                        cursor as int,
                        c1 as int,
                    ));
                },
                BusOp::Receive => {
                    assert(rs.drop_last() =~= rs1);
                    assert(rs.last() == rs2[0]);
                    assert(!(rs[rs.len() - 1] is Lagged));
                    if v1.closed || c1 >= v1.log.len() {
                        assert(w.log.subrange(cursor as int, c as int) =~= v1.log.subrange(
                            cursor as int,
                            c1 as int,
                        ));
                    } else {
                        assert(w.log.subrange(cursor as int, c as int) =~= v1.log.subrange(
                            cursor as int,
                            c1 as int,
                        ).push(v1.log[c1 as int]));
                    }
                },
            }
        }
    }
}

/// A subscriber that misses more publishes than the bus retains observes one
/// lag notice counting exactly the publishes beyond the retained window, and
/// then resumes with the oldest retained payload.
pub proof fn lemma_lag_recovery(v: BusView, cursor: nat, ops: Seq<BusOp>)
    requires
        !v.closed,
        v.capacity > 0,
        cursor <= v.log.len(),
        forall|i: int| 0 <= i < ops.len() ==> #[trigger] ops[i] is Publish,
        run(v, cursor, ops).0.log.len() > cursor + v.capacity,
    ensures
        ({
            let (w, c, rs) = run(v, cursor, ops);
            let skipped = w.log.len() - cursor - v.capacity;
            &&& c == cursor
            &&& rs.len() == 0
            &&& w.outcome(cursor) == (Received::Lagged(skipped as u64), w.oldest())
            &&& w.outcome(w.oldest()) == (Received::Item(w.log[w.oldest() as int]), w.oldest() + 1)
        }),
{
    lemma_silent_publishes(v, cursor, ops);
    lemma_run_frame(v, cursor, ops);
}

/// Publishing alone neither moves a cursor nor produces observations.
proof fn lemma_silent_publishes(v: BusView, cursor: nat, ops: Seq<BusOp>)
    requires
        forall|i: int| 0 <= i < ops.len() ==> #[trigger] ops[i] is Publish,
    ensures
        run(v, cursor, ops).1 == cursor,
        run(v, cursor, ops).2.len() == 0,
    decreases ops.len(),
{
    if ops.len() > 0 {
        let prefix = ops.drop_last();
        assert forall|i: int| 0 <= i < prefix.len() implies #[trigger] prefix[i] is Publish by {
            assert(prefix[i] == ops[i]);
        }
        lemma_silent_publishes(v, cursor, prefix);
        assert(ops[ops.len() - 1] is Publish);
    }
}

/// A subscriber that joins after one payload and before the next does not
/// see the earlier one: its first observation is the next payload, its
/// cursor never goes back before the point where it joined, and without lag
/// it observes exactly what was published after that point.
pub proof fn lemma_late_subscriber(v: BusView, next: String, ops: Seq<BusOp>)
    requires
        !v.closed,
        v.capacity > 0,
    ensures
        v.after_publish(next).outcome(v.log.len()) == (Received::Item(next), v.log.len() + 1),
        ({
            let (w, c, rs) = run(v, v.log.len(), ops);
            &&& v.log.len() <= c
            &&& never_lagged(rs) ==> items(rs) == w.log.subrange(v.log.len() as int, c as int)
        }),
{
    lemma_run_frame(v, v.log.len(), ops);
    lemma_delivery_in_order(v, v.log.len(), ops);
}

/// A failed send ends only the session it happened on: that session sends
/// nothing more, while another live session at the tail still receives the
/// next reading.
pub proof fn lemma_fault_isolation(
    failed: SessionView,
    other: SessionView,
    bus: BusView,
    next: String,
)
    requires
        other.live,
        other.cursor == bus.log.len(),
        !bus.closed,
        bus.capacity > 0,
    ensures
        ({
            let (gone, flow) = failed.after_send(false);
            &&& flow == Flow::Stop
            &&& !gone.live
            &&& gone.forward(bus.after_publish(next)).1 == ForwardStep::Stop
        }),
        other.forward(bus.after_publish(next)) == (SessionView {
            cursor: other.cursor + 1,
            ..other
        }, ForwardStep::Send(next)),
{
}

/// A malformed message on the topic is discarded without touching the
/// ingestor's state, so the valid message after it is still forwarded.
pub proof fn lemma_decode_resilience(v: IngestorView, bad: PayloadError, good: String)
    ensures
        ({
            let (v1, a1) = v.next(BrokerEvent::Message { topic: v.topic, body: Err(bad) });
            let (v2, a2) = v1.next(BrokerEvent::Message { topic: v.topic, body: Ok(good) });
            &&& a1 == IngestAction::Discard(bad)
            &&& v1 == v
            &&& a2 == IngestAction::Forward(good)
            &&& v2 == v
        }),
{
}

/// After a lost connection the ingestor waits a backed-off delay, and on the
/// next acknowledgment it subscribes to its topic again, is ready, and
/// forwards what arrives on the topic.
pub proof fn lemma_reconnect(v: IngestorView, jitter: u64, reading: String)
    ensures
        ({
            let (v1, a1) = v.next(BrokerEvent::ConnectionLost { jitter });
            let (v2, a2) = v1.next(BrokerEvent::ConnAck);
            let (v3, a3) = v2.next(BrokerEvent::Message { topic: v.topic, body: Ok(reading) });
            &&& a1 == IngestAction::Retry {
                delay_ms: backoff_delay(v.failures, jitter as nat) as u64,
            }
            &&& !v1.ready
            &&& a2 == IngestAction::Subscribe(v.topic)
            &&& v2.ready
            &&& v2.failures == 0
            &&& a3 == IngestAction::Forward(reading)
            &&& v3 == v2
        }),
{
}

} // verus!
