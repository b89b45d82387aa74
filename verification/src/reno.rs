//! A loss-reactive, window-adjusting congestion-control variant in the
//! Reno style.
//!
//! The window starts at [`INITIAL_WINDOW`] bytes and grows by each newly
//! acknowledged packet's size while below the slow-start threshold
//! (saturating at `usize::MAX`).  A loss signal halves the window,
//! saturating at [`MINIMUM_WINDOW`], and lowers the slow-start threshold
//! to the reduced window.  `checkpoint` snapshots the window and
//! threshold so that `rollback` can undo a reduction made for a loss that
//! turns out to be spurious.

use vstd::prelude::*;

use crate::congestion::Congestion;
use crate::congestion::Snapshot;
use crate::types::Acked;
use crate::types::RttStats;
use crate::types::Sent;
use crate::types::INITIAL_WINDOW;
use crate::types::MINIMUM_WINDOW;

verus! {

/// Initialization: the initial window, an unbounded slow-start threshold.
pub open spec fn spec_on_init(c: Congestion) -> Congestion {
    Congestion { congestion_window: INITIAL_WINDOW, ssthresh: usize::MAX, ..c }
}

/// Transmission itself adjusts nothing; pacing lives elsewhere.
pub open spec fn spec_on_packet_sent(
    c: Congestion,
    sent_bytes: usize,
    bytes_in_flight: usize,
    now: u64,
) -> Congestion {
    c
}

/// Addition that saturates at `usize::MAX`.
pub open spec fn sat_add(a: usize, b: usize) -> usize {
    if a + b > usize::MAX {
        usize::MAX
    } else {
        (a + b) as usize
    }
}

/// Window growth contributed by one acknowledged packet: its size while
/// in slow start (below the threshold), nothing otherwise.
pub open spec fn grow_one(cw: usize, ssthresh: usize, p: Acked) -> usize {
    if cw < ssthresh {
        sat_add(cw, p.size)
    } else {
        cw
    }
}

/// Window after processing an acknowledgment batch front to back.
pub open spec fn grow(cw: usize, ssthresh: usize, batch: Seq<Acked>) -> usize
    decreases batch.len(),
{
    if batch.len() == 0 {
        cw
    } else {
        grow(grow_one(cw, ssthresh, batch[0]), ssthresh, batch.drop_first())
    }
}

/// Processing an acknowledgment batch never shrinks the window.
pub proof fn lemma_grow_monotonic(cw: usize, ssthresh: usize, batch: Seq<Acked>)
    ensures
        grow(cw, ssthresh, batch) >= cw,
    decreases batch.len(),
{
    if batch.len() != 0 {
        lemma_grow_monotonic(grow_one(cw, ssthresh, batch[0]), ssthresh, batch.drop_first());
    }
}

/// Acknowledgment grows the window per [`grow`]; nothing else moves.
pub open spec fn spec_on_packets_acked(
    c: Congestion,
    bytes_in_flight: usize,
    batch: Seq<Acked>,
    now: u64,
    rtt_stats: RttStats,
) -> Congestion {
    Congestion { congestion_window: grow(c.congestion_window, c.ssthresh, batch), ..c }
}

/// Window after a loss signal: halved, never below [`MINIMUM_WINDOW`].
pub open spec fn reduced_window(cw: usize) -> usize {
    if cw / 2 > MINIMUM_WINDOW {
        cw / 2
    } else {
        MINIMUM_WINDOW
    }
}

/// A loss reduces the window and pulls the slow-start threshold down to
/// the reduced window.
pub open spec fn spec_congestion_event(
    c: Congestion,
    bytes_in_flight: usize,
    lost_bytes: usize,
    largest_lost_pkt: Sent,
    now: u64,
) -> Congestion {
    Congestion {
        congestion_window: reduced_window(c.congestion_window),
        ssthresh: reduced_window(c.congestion_window),
        ..c
    }
}

/// Checkpoint snapshots the window and threshold, overwriting any prior
/// unconsumed snapshot.
pub open spec fn spec_checkpoint(c: Congestion) -> Congestion {
    Congestion {
        checkpoint_slot: Option::Some(
            Snapshot { congestion_window: c.congestion_window, ssthresh: c.ssthresh },
        ),
        ..c
    }
}

/// Rollback consumes the snapshot, restores it, and reports whether the
/// restoration changed observable state; with no snapshot it changes
/// nothing and reports no reversal.
pub open spec fn spec_rollback(c: Congestion) -> (Congestion, bool) {
    match c.checkpoint_slot {
        Option::Some(s) => (
            Congestion {
                congestion_window: s.congestion_window,
                ssthresh: s.ssthresh,
                checkpoint_slot: Option::None,
                ..c
            },
            s.congestion_window != c.congestion_window || s.ssthresh != c.ssthresh,
        ),
        Option::None => (c, false),
    }
}

/// Sets the initial window and threshold.
pub fn on_init(r: &mut Congestion)
    ensures
        *final(r) == spec_on_init(*old(r)),
{
    r.congestion_window = INITIAL_WINDOW;
    r.ssthresh = usize::MAX;
}

/// Records nothing at transmission time.
pub fn on_packet_sent(r: &mut Congestion, sent_bytes: usize, bytes_in_flight: usize, now: u64)
    ensures
        *final(r) == spec_on_packet_sent(*old(r), sent_bytes, bytes_in_flight, now),
{
}

/// Drains the acknowledgment batch, growing the window for each packet
/// acknowledged while in slow start.
pub fn on_packets_acked(
    r: &mut Congestion,
    bytes_in_flight: usize,
    packets: &mut Vec<Acked>,
    now: u64,
    rtt_stats: &RttStats,
)
    requires
        crate::congestion::batch_ordered(old(packets)@),
    ensures
        *final(r) == spec_on_packets_acked(
            *old(r),
            bytes_in_flight,
            old(packets)@,
            now,
            *rtt_stats,
        ),
        final(packets)@ == Seq::<Acked>::empty(),
        final(r).congestion_window >= old(r).congestion_window,
{
    let ghost batch = packets@;
    let ghost ss = r.ssthresh;
    let ghost cw0 = r.congestion_window;
    let n = packets.len();
    let mut i: usize = 0;
    proof {
        assert(batch.skip(0) =~= batch);
        lemma_grow_monotonic(cw0, ss, batch);
    }
    while i < n
        invariant
            n == batch.len(),
            packets@ == batch,
            i <= n,
            r.ssthresh == ss,
            r.algorithm == old(r).algorithm,
            r.bytes_in_flight == old(r).bytes_in_flight,
            r.checkpoint_slot == old(r).checkpoint_slot,
            cw0 == old(r).congestion_window,
            ss == old(r).ssthresh,
            grow(r.congestion_window, ss, batch.skip(i as int)) == grow(cw0, ss, batch),
        decreases n - i,
    {
        let p = packets[i];
        proof {
            assert(batch.skip(i as int).len() != 0);
            assert(batch.skip(i as int)[0] == batch[i as int]);
            assert(batch.skip(i as int).drop_first() =~= batch.skip(i as int + 1));
        }
        if r.congestion_window < r.ssthresh {
            if p.size > usize::MAX - r.congestion_window {
                r.congestion_window = usize::MAX;
            } else {
                r.congestion_window = r.congestion_window + p.size;
            }
        }
        i = i + 1;
    }
    proof {
        assert(batch.skip(n as int) =~= Seq::<Acked>::empty());
    }
    packets.clear();
}

/// Halves the window (saturating at the minimum) and lowers the
/// slow-start threshold to the reduced window.
pub fn congestion_event(
    r: &mut Congestion,
    bytes_in_flight: usize,
    lost_bytes: usize,
    largest_lost_pkt: &Sent,
    now: u64,
)
    ensures
        *final(r) == spec_congestion_event(
            *old(r),
            bytes_in_flight,
            lost_bytes,
            *largest_lost_pkt,
            now,
        ),
{
    let half = r.congestion_window / 2;
    let reduced = if half > MINIMUM_WINDOW {
        half
    } else {
        MINIMUM_WINDOW
    };
    r.congestion_window = reduced;
    r.ssthresh = reduced;
}

/// Saves the window and threshold into the checkpoint slot.
pub fn checkpoint(r: &mut Congestion)
    ensures
        *final(r) == spec_checkpoint(*old(r)),
{
    r.checkpoint_slot = Option::Some(
        Snapshot { congestion_window: r.congestion_window, ssthresh: r.ssthresh },
    );
}

/// Restores the snapshot if one exists; reports whether observable state
/// changed.
pub fn rollback(r: &mut Congestion) -> (reverted: bool)
    ensures
        *final(r) == spec_rollback(*old(r)).0,
        reverted == spec_rollback(*old(r)).1,
{
    match r.checkpoint_slot {
        Option::Some(s) => {
            let changed = s.congestion_window != r.congestion_window || s.ssthresh != r.ssthresh;
            r.congestion_window = s.congestion_window;
            r.ssthresh = s.ssthresh;
            r.checkpoint_slot = Option::None;
            changed
        },
        Option::None => false,
    }
}

/// Diagnostic state name: growth phase of the window.
pub fn state_str(r: &Congestion, now: u64) -> (res: &'static str)
    ensures
        r.congestion_window < r.ssthresh ==> res@ == "slow_start"@,
        r.congestion_window >= r.ssthresh ==> res@ == "congestion_avoidance"@,
{
    if r.congestion_window < r.ssthresh {
        "slow_start"
    } else {
        "congestion_avoidance"
    }
}

/// Human-readable rendering of the current algorithm state.
pub fn debug_fmt(r: &Congestion, now: u64) -> (res: String)
    ensures
        res@ == "reno"@,
{
    "reno".to_owned()
}

} // verus!
