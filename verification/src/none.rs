//! The reference ("disabled") congestion-control variant.
//!
//! It pins the congestion window at the maximum sentinel (`usize::MAX`,
//! meaning "unbounded") at initialization and then ignores every
//! congestion signal: a deliberate fail-open policy for trusted or
//! controlled-network scenarios where congestion feedback should not
//! throttle sending.  `rollback` unconditionally reports a successful
//! reversal even though no state changes; callers may branch on that
//! report, so the behavior is part of the contract.

use vstd::prelude::*;

use crate::congestion::Congestion;
use crate::types::Acked;
use crate::types::RttStats;
use crate::types::Sent;

verus! {

/// Initialization pins the window at the maximum sentinel and touches
/// nothing else.
pub open spec fn spec_on_init(c: Congestion) -> Congestion {
    Congestion { congestion_window: usize::MAX, ..c }
}

/// Transmission is a no-op for this variant.
pub open spec fn spec_on_packet_sent(
    c: Congestion,
    sent_bytes: usize,
    bytes_in_flight: usize,
    now: u64,
) -> Congestion {
    c
}

/// Acknowledgment never grows the window: it is already maximal.
pub open spec fn spec_on_packets_acked(
    c: Congestion,
    bytes_in_flight: usize,
    batch: Seq<Acked>,
    now: u64,
    rtt_stats: RttStats,
) -> Congestion {
    c
}

/// Loss signals are ignored entirely.
pub open spec fn spec_congestion_event(
    c: Congestion,
    bytes_in_flight: usize,
    lost_bytes: usize,
    largest_lost_pkt: Sent,
    now: u64,
) -> Congestion {
    c
}

/// There is nothing meaningful to snapshot: the window never changes.
pub open spec fn spec_checkpoint(c: Congestion) -> Congestion {
    c
}

/// Rollback restores nothing and still reports a successful reversal.
pub open spec fn spec_rollback(c: Congestion) -> (Congestion, bool) {
    (c, true)
}

/// Sets the initial congestion window; bytes in flight are left exactly
/// as the caller tracked them.
pub fn on_init(r: &mut Congestion)
    ensures
        *final(r) == spec_on_init(*old(r)),
{
    r.congestion_window = usize::MAX;
}

/// Records nothing at transmission time.
pub fn on_packet_sent(r: &mut Congestion, sent_bytes: usize, bytes_in_flight: usize, now: u64)
    ensures
        *final(r) == spec_on_packet_sent(*old(r), sent_bytes, bytes_in_flight, now),
{
}

/// Drains the acknowledgment batch without altering the window.
pub fn on_packets_acked(
    r: &mut Congestion,
    bytes_in_flight: usize,
    packets: &mut Vec<Acked>,
    now: u64,
    rtt_stats: &RttStats,
)
    requires
        crate::congestion::batch_ordered(old(packets)@),
    ensures
        *final(r) == spec_on_packets_acked(
            *old(r),
            bytes_in_flight,
            old(packets)@,
            now,
            *rtt_stats,
        ),
        final(packets)@ == Seq::<Acked>::empty(),
{
    packets.clear();
}

/// Ignores the loss signal: the window is never reduced.
pub fn congestion_event(
    r: &mut Congestion,
    bytes_in_flight: usize,
    lost_bytes: usize,
    largest_lost_pkt: &Sent,
    now: u64,
)
    ensures
        *final(r) == spec_congestion_event(
            *old(r),
            bytes_in_flight,
            lost_bytes,
            *largest_lost_pkt,
            now,
        ),
{
}

/// Stores nothing: there is no window state worth snapshotting.
pub fn checkpoint(r: &mut Congestion)
    ensures
        *final(r) == spec_checkpoint(*old(r)),
{
}

/// Reports a successful reversal without changing any state.
pub fn rollback(r: &mut Congestion) -> (reverted: bool)
    ensures
        *final(r) == spec_rollback(*old(r)).0,
        reverted == spec_rollback(*old(r)).1,
{
    true
}

/// Diagnostic state name for this variant.
pub fn state_str(r: &Congestion, now: u64) -> (res: &'static str)
    ensures
        res@ == "none"@,
{
    "none"
}

/// Human-readable rendering of the current algorithm state.
pub fn debug_fmt(r: &Congestion, now: u64) -> (res: String)
    ensures
        res@ == "none"@,
{
    "none".to_owned()
}

} // verus!
