//! The per-connection congestion state container and the strategy
//! interface through which the recovery engine drives it.
//!
//! Exactly one algorithm variant is bound to a container at construction
//! and for the container's whole lifetime; every operation dispatches on
//! that binding.  The container carries the congestion window, the
//! caller-tracked bytes-in-flight mirror, the slow-start threshold, and a
//! checkpoint slot holding at most one snapshot.

use vstd::prelude::*;

use crate::algorithm::CongestionControlAlgorithm;
use crate::types::Acked;
use crate::types::RttStats;
use crate::types::Sent;

verus! {

/// A saved snapshot of window-relevant state: what `checkpoint` captures
/// and `rollback` restores.
#[derive(Clone, Copy, Debug, PartialEq, Eq, Structural)]
pub struct Snapshot {
    /// Congestion window at checkpoint time.
    pub congestion_window: usize,
    /// Slow-start threshold at checkpoint time.
    pub ssthresh: usize,
}

/// Per-connection congestion state.  Created once when a connection is
/// established, initialized by the bound algorithm's `on_init`, and from
/// then on mutated only through the interface operations.
#[derive(Clone, Copy, Debug)]
pub struct Congestion {
    /// The algorithm variant bound to this container (immutable in
    /// intent: no operation ever changes it).
    pub algorithm: CongestionControlAlgorithm,
    /// Upper bound on unacknowledged bytes allowed in flight;
    /// `usize::MAX` is the sentinel meaning "unbounded".
    pub congestion_window: usize,
    /// Cached bytes in flight, mirroring the caller-tracked value; the
    /// strategies never recompute it.
    pub bytes_in_flight: usize,
    /// Window value below which the bound algorithm grows aggressively.
    pub ssthresh: usize,
    /// At most one saved snapshot; a new checkpoint overwrites it.
    pub checkpoint_slot: Option<Snapshot>,
}

/// Window after initialization by the bound variant.
pub open spec fn spec_on_init(c: Congestion) -> Congestion {
    match c.algorithm {
        CongestionControlAlgorithm::Disabled => crate::none::spec_on_init(c),
        CongestionControlAlgorithm::Reno => crate::reno::spec_on_init(c),
    }
}

/// State after the bound variant records a transmission.
pub open spec fn spec_on_packet_sent(
    c: Congestion,
    sent_bytes: usize,
    bytes_in_flight: usize,
    now: u64,
) -> Congestion {
    match c.algorithm {
        CongestionControlAlgorithm::Disabled => crate::none::spec_on_packet_sent(
            c,
            sent_bytes,
            bytes_in_flight,
            now,
        ),
        CongestionControlAlgorithm::Reno => crate::reno::spec_on_packet_sent(
            c,
            sent_bytes,
            bytes_in_flight,
            now,
        ),
    }
}

/// The order the recovery engine owes `on_packets_acked`: packet numbers
/// strictly ascending, send times never decreasing.  Reordering within a
/// batch would corrupt RTT-driven growth decisions.
pub open spec fn batch_ordered(batch: Seq<Acked>) -> bool {
    forall|i: int, j: int|
        0 <= i < j < batch.len() ==> batch[i].pkt_num < batch[j].pkt_num
            && batch[i].time_sent <= batch[j].time_sent
}

/// State after the bound variant processes an acknowledgment batch.
pub open spec fn spec_on_packets_acked(
    c: Congestion,
    bytes_in_flight: usize,
    batch: Seq<Acked>,
    now: u64,
    rtt_stats: RttStats,
) -> Congestion {
    match c.algorithm {
        CongestionControlAlgorithm::Disabled => crate::none::spec_on_packets_acked(
            c,
            bytes_in_flight,
            batch,
            now,
            rtt_stats,
        ),
        CongestionControlAlgorithm::Reno => crate::reno::spec_on_packets_acked(
            c,
            bytes_in_flight,
            batch,
            now,
            rtt_stats,
        ),
    }
}

/// State after the bound variant reacts to a loss signal.
pub open spec fn spec_congestion_event(
    c: Congestion,
    bytes_in_flight: usize,
    lost_bytes: usize,
    largest_lost_pkt: Sent,
    now: u64,
) -> Congestion {
    match c.algorithm {
        CongestionControlAlgorithm::Disabled => crate::none::spec_congestion_event(
            c,
            bytes_in_flight,
            lost_bytes,
            largest_lost_pkt,
            now,
        ),
        CongestionControlAlgorithm::Reno => crate::reno::spec_congestion_event(
            c,
            bytes_in_flight,
            lost_bytes,
            largest_lost_pkt,
            now,
        ),
    }
}

/// State after the bound variant saves a snapshot.
pub open spec fn spec_checkpoint(c: Congestion) -> Congestion {
    match c.algorithm {
        CongestionControlAlgorithm::Disabled => crate::none::spec_checkpoint(c),
        CongestionControlAlgorithm::Reno => crate::reno::spec_checkpoint(c),
    }
}

/// State after the bound variant rolls back, with whether a meaningful
/// reversal is reported.
pub open spec fn spec_rollback(c: Congestion) -> (Congestion, bool) {
    match c.algorithm {
        CongestionControlAlgorithm::Disabled => crate::none::spec_rollback(c),
        CongestionControlAlgorithm::Reno => crate::reno::spec_rollback(c),
    }
}

/// Diagnostic state name the bound variant reports.
pub open spec fn spec_state_str(c: Congestion) -> Seq<char> {
    match c.algorithm {
        CongestionControlAlgorithm::Disabled => "none"@,
        CongestionControlAlgorithm::Reno => if c.congestion_window < c.ssthresh {
            "slow_start"@
        } else {
            "congestion_avoidance"@
        },
    }
}

/// Debug rendering the bound variant produces.
pub open spec fn spec_debug_fmt(c: Congestion) -> Seq<char> {
    match c.algorithm {
        CongestionControlAlgorithm::Disabled => "none"@,
        CongestionControlAlgorithm::Reno => "reno"@,
    }
}

/// A container as it stands at creation, before `on_init` runs.
pub open spec fn spec_fresh(algorithm: CongestionControlAlgorithm) -> Congestion {
    Congestion {
        algorithm,
        congestion_window: 0,
        bytes_in_flight: 0,
        ssthresh: usize::MAX,
        checkpoint_slot: Option::None,
    }
}

/// A container as a connection receives it: freshly created and
/// initialized by the bound variant.
pub open spec fn spec_new(algorithm: CongestionControlAlgorithm) -> Congestion {
    spec_on_init(spec_fresh(algorithm))
}

impl Congestion {
    /// Well-formedness: the window is positive (`usize::MAX` at most, the
    /// "unbounded" sentinel), and any saved snapshot is positive too, so
    /// a rollback can never zero the window.
    pub open spec fn wf(self) -> bool {
        &&& self.congestion_window > 0
        &&& match self.checkpoint_slot {
            Option::Some(s) => s.congestion_window > 0,
            Option::None => true,
        }
    }

    /// Creates the container for a new connection, bound to `algorithm`
    /// for its whole lifetime, and runs the variant's initialization.
    pub fn new(algorithm: CongestionControlAlgorithm) -> (res: Congestion)
        ensures
            res == spec_new(algorithm),
            res.wf(),
            res.algorithm == algorithm,
            res.bytes_in_flight == 0,
            res.congestion_window > 0,
    {
        let mut c = Congestion {
            algorithm,
            congestion_window: 0,
            bytes_in_flight: 0,
            ssthresh: usize::MAX,
            checkpoint_slot: Option::None,
        };
        c.on_init();
        c
    }

    /// Current congestion window in bytes.
    pub fn cwnd(&self) -> (res: usize)
        ensures
            res == self.congestion_window,
    {
        self.congestion_window
    }

    /// Current cached bytes in flight.
    pub fn bytes_in_flight(&self) -> (res: usize)
        ensures
            res == self.bytes_in_flight,
    {
        self.bytes_in_flight
    }

    /// Runs the bound variant's initialization: sets the initial window
    /// and leaves bytes in flight untouched (0 on a fresh container).
    pub fn on_init(&mut self)
        ensures
            *final(self) == spec_on_init(*old(self)),
            final(self).congestion_window > 0,
            final(self).bytes_in_flight == old(self).bytes_in_flight,
            final(self).algorithm == old(self).algorithm,
    {
        match self.algorithm {
            CongestionControlAlgorithm::Disabled => crate::none::on_init(self),
            CongestionControlAlgorithm::Reno => crate::reno::on_init(self),
        }
    }

    /// Lets the bound variant record a transmission.  Never blocks and
    /// returns nothing; the caller keeps the bytes-in-flight accounting.
    pub fn on_packet_sent(&mut self, sent_bytes: usize, bytes_in_flight: usize, now: u64)
        ensures
            *final(self) == spec_on_packet_sent(*old(self), sent_bytes, bytes_in_flight, now),
            old(self).wf() ==> final(self).wf(),
    {
        match self.algorithm {
            CongestionControlAlgorithm::Disabled => crate::none::on_packet_sent(
                self,
                sent_bytes,
                bytes_in_flight,
                now,
            ),
            CongestionControlAlgorithm::Reno => crate::reno::on_packet_sent(
                self,
                sent_bytes,
                bytes_in_flight,
                now,
            ),
        }
    }

    /// Hands a batch of newly confirmed deliveries, in ascending
    /// send-time order, to the bound variant.  The batch is fully
    /// drained: it is empty when the call returns, whatever the variant.
    pub fn on_packets_acked(
        &mut self,
        bytes_in_flight: usize,
        packets: &mut Vec<Acked>,
        now: u64,
        rtt_stats: &RttStats,
    )
        requires
            batch_ordered(old(packets)@),
        ensures
            *final(self) == spec_on_packets_acked(
                *old(self),
                bytes_in_flight,
                old(packets)@,
                now,
                *rtt_stats,
            ),
            final(packets)@ == Seq::<Acked>::empty(),
            old(self).wf() ==> final(self).wf(),
    {
        match self.algorithm {
            CongestionControlAlgorithm::Disabled => crate::none::on_packets_acked(
                self,
                bytes_in_flight,
                packets,
                now,
                rtt_stats,
            ),
            CongestionControlAlgorithm::Reno => crate::reno::on_packets_acked(
                self,
                bytes_in_flight,
                packets,
                now,
                rtt_stats,
            ),
        }
    }

    /// Lets the bound variant react to a loss signal; it may reduce the
    /// window and the slow-start threshold, saturating at its floor,
    /// never wrapping.
    pub fn congestion_event(
        &mut self,
        bytes_in_flight: usize,
        lost_bytes: usize,
        largest_lost_pkt: &Sent,
        now: u64,
    )
        ensures
            *final(self) == spec_congestion_event(
                *old(self),
                bytes_in_flight,
                lost_bytes,
                *largest_lost_pkt,
                now,
            ),
            old(self).wf() ==> final(self).wf(),
    {
        match self.algorithm {
            CongestionControlAlgorithm::Disabled => crate::none::congestion_event(
                self,
                bytes_in_flight,
                lost_bytes,
                largest_lost_pkt,
                now,
            ),
            CongestionControlAlgorithm::Reno => crate::reno::congestion_event(
                self,
                bytes_in_flight,
                lost_bytes,
                largest_lost_pkt,
                now,
            ),
        }
    }

    /// Saves a snapshot of window-relevant state, overwriting any prior
    /// unconsumed snapshot (for variants with anything to save).
    pub fn checkpoint(&mut self)
        ensures
            *final(self) == spec_checkpoint(*old(self)),
            old(self).wf() ==> final(self).wf(),
    {
        match self.algorithm {
            CongestionControlAlgorithm::Disabled => crate::none::checkpoint(self),
            CongestionControlAlgorithm::Reno => crate::reno::checkpoint(self),
        }
    }

    /// Restores the most recent snapshot if the bound variant keeps one;
    /// reports whether a meaningful reversal occurred (the reference
    /// variant reports success unconditionally by contract).
    pub fn rollback(&mut self) -> (reverted: bool)
        ensures
            *final(self) == spec_rollback(*old(self)).0,
            reverted == spec_rollback(*old(self)).1,
            old(self).wf() ==> final(self).wf(),
    {
        match self.algorithm {
            CongestionControlAlgorithm::Disabled => crate::none::rollback(self),
            CongestionControlAlgorithm::Reno => crate::reno::rollback(self),
        }
    }

    /// Diagnostic state name; reads the container without side effects.
    pub fn state_str(&self, now: u64) -> (res: &'static str)
        ensures
            res@ == spec_state_str(*self),
    {
        match self.algorithm {
            CongestionControlAlgorithm::Disabled => crate::none::state_str(self, now),
            CongestionControlAlgorithm::Reno => crate::reno::state_str(self, now),
        }
    }

    /// Human-readable rendering of current algorithm state; reads the
    /// container without side effects.
    pub fn debug_fmt(&self, now: u64) -> (res: String)
        ensures
            res@ == spec_debug_fmt(*self),
    {
        match self.algorithm {
            CongestionControlAlgorithm::Disabled => crate::none::debug_fmt(self, now),
            CongestionControlAlgorithm::Reno => crate::reno::debug_fmt(self, now),
        }
    }
}

} // verus!
