//! The guarantees every strategy gives its callers, stated and proved
//! over the specification-level transitions of [`crate::congestion`].
//!
//! An [`Event`] is one interface operation as the recovery engine issues
//! it after initialization; [`run`] folds a whole event history over a
//! container, so invariants can be stated over every reachable state.

use vstd::prelude::*;

use crate::algorithm::CongestionControlAlgorithm;
use crate::congestion::spec_checkpoint;
use crate::congestion::spec_congestion_event;
use crate::congestion::spec_new;
use crate::congestion::spec_on_init;
use crate::congestion::spec_on_packet_sent;
use crate::congestion::spec_on_packets_acked;
use crate::congestion::spec_rollback;
use crate::congestion::Congestion;
use crate::types::Acked;
use crate::types::RttStats;
use crate::types::Sent;

verus! {

/// One interface operation, with the arguments the recovery engine
/// passes, as issued at some point after initialization.
pub enum Event {
    /// A packet transmission was recorded.
    PacketSent { sent_bytes: usize, bytes_in_flight: usize, now: u64 },
    /// A batch of newly confirmed deliveries was processed.
    PacketsAcked { bytes_in_flight: usize, batch: Seq<Acked>, now: u64, rtt_stats: RttStats },
    /// A loss signal was delivered.
    CongestionEvent {
        bytes_in_flight: usize,
        lost_bytes: usize,
        largest_lost_pkt: Sent,
        now: u64,
    },
    /// A snapshot was saved.
    Checkpoint,
    /// The snapshot, if any, was restored.
    Rollback,
}

/// The container after one event.
pub open spec fn step(c: Congestion, e: Event) -> Congestion {
    match e {
        Event::PacketSent { sent_bytes, bytes_in_flight, now } => spec_on_packet_sent(
            c,
            sent_bytes,
            bytes_in_flight,
            now,
        ),
        Event::PacketsAcked { bytes_in_flight, batch, now, rtt_stats } => spec_on_packets_acked(
            c,
            bytes_in_flight,
            batch,
            now,
            rtt_stats,
        ),
        Event::CongestionEvent { bytes_in_flight, lost_bytes, largest_lost_pkt, now } =>
            spec_congestion_event(c, bytes_in_flight, lost_bytes, largest_lost_pkt, now),
        Event::Checkpoint => spec_checkpoint(c),
        Event::Rollback => spec_rollback(c).0,
    }
}

/// The container after a whole event history, front to back.
pub open spec fn run(c: Congestion, events: Seq<Event>) -> Congestion
    decreases events.len(),
{
    if events.len() == 0 {
        c
    } else {
        run(step(c, events[0]), events.drop_first())
    }
}

/// Initialization leaves bytes in flight at zero and yields a positive
/// window, whichever variant is bound.
pub proof fn lemma_on_init_zero_flight_positive_window(c: Congestion)
    requires
        c.bytes_in_flight == 0,
    ensures
        spec_on_init(c).bytes_in_flight == 0,
        spec_on_init(c).congestion_window > 0,
{
}

/// A freshly constructed container has zero bytes in flight and a
/// positive window, whichever variant is bound.
pub proof fn lemma_new_zero_flight_positive_window(algorithm: CongestionControlAlgorithm)
    ensures
        spec_new(algorithm).bytes_in_flight == 0,
        spec_new(algorithm).congestion_window > 0,
{
}

/// No event changes a container bound to the reference variant: every
/// operation of that variant is the identity on state.
pub proof fn lemma_disabled_step_identity(c: Congestion, e: Event)
    requires
        c.algorithm == CongestionControlAlgorithm::Disabled,
    ensures
        step(c, e) == c,
{
}

/// No event history changes a container bound to the reference variant.
pub proof fn lemma_disabled_run_identity(c: Congestion, events: Seq<Event>)
    requires
        c.algorithm == CongestionControlAlgorithm::Disabled,
    ensures
        run(c, events) == c,
    decreases events.len(),
{
    if events.len() != 0 {
        lemma_disabled_step_identity(c, events[0]);
        lemma_disabled_run_identity(c, events.drop_first());
    }
}

/// Reference variant: the window equals the maximum sentinel after
/// initialization, stays there under any sequence of sends,
/// acknowledgments, losses, checkpoints and rollbacks, and `rollback`
/// always reports a successful reversal.
pub proof fn lemma_disabled_window_stays_max(c: Congestion, events: Seq<Event>)
    requires
        c.algorithm == CongestionControlAlgorithm::Disabled,
    ensures
        spec_on_init(c).congestion_window == usize::MAX,
        run(spec_on_init(c), events).congestion_window == usize::MAX,
        spec_rollback(run(spec_on_init(c), events)).1 == true,
{
    lemma_disabled_run_identity(spec_on_init(c), events);
}

/// `checkpoint` immediately followed by `rollback`, with nothing in
/// between, leaves the window and the slow-start threshold exactly as
/// they were, whichever variant is bound.
pub proof fn lemma_checkpoint_rollback_preserves_window(c: Congestion)
    ensures
        spec_rollback(spec_checkpoint(c)).0.congestion_window == c.congestion_window,
        spec_rollback(spec_checkpoint(c)).0.ssthresh == c.ssthresh,
{
}

/// A checkpoint taken before a loss declaration lets `rollback` undo the
/// window reduction exactly: after checkpoint, congestion event, and
/// rollback, the window and threshold are back at their pre-loss values.
pub proof fn lemma_rollback_undoes_loss(
    c: Congestion,
    bytes_in_flight: usize,
    lost_bytes: usize,
    largest_lost_pkt: Sent,
    now: u64,
)
    ensures
        spec_rollback(
            spec_congestion_event(
                spec_checkpoint(c),
                bytes_in_flight,
                lost_bytes,
                largest_lost_pkt,
                now,
            ),
        ).0.congestion_window == c.congestion_window,
        spec_rollback(
            spec_congestion_event(
                spec_checkpoint(c),
                bytes_in_flight,
                lost_bytes,
                largest_lost_pkt,
                now,
            ),
        ).0.ssthresh == c.ssthresh,
{
}

} // verus!
