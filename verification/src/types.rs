//! Plain records exchanged between the recovery engine and a congestion
//! control strategy: per-packet facts, RTT samples, and the sizing
//! constants shared by the algorithm variants.
//!
//! Timestamps are carried as plain tick counts (`u64`); the strategies
//! never interpret them beyond passing them along.

use vstd::prelude::*;

verus! {

/// Default maximum datagram size in bytes.
pub const MAX_DATAGRAM_SIZE: usize = 1350;

/// Initial congestion window, in packets, for window-adjusting variants.
pub const INITIAL_WINDOW_PACKETS: usize = 10;

/// Initial congestion window in bytes for window-adjusting variants.
pub const INITIAL_WINDOW: usize = INITIAL_WINDOW_PACKETS * MAX_DATAGRAM_SIZE;

/// Floor below which no window-adjusting variant may shrink the window.
pub const MINIMUM_WINDOW: usize = 2 * MAX_DATAGRAM_SIZE;

/// A packet the recovery engine has transmitted and not yet accounted as
/// acknowledged or lost.  Owned by the recovery engine; a strategy only
/// ever borrows it.
#[derive(Clone, Copy, Debug)]
pub struct Sent {
    /// Packet number.
    pub pkt_num: u64,
    /// Tick at which the packet was sent.
    pub time_sent: u64,
    /// Size of the packet in bytes.
    pub size: usize,
    /// Whether the packet requires acknowledgment.
    pub ack_eliciting: bool,
    /// Whether the packet currently counts toward bytes in flight.
    pub in_flight: bool,
}

/// A packet whose delivery the recovery engine has confirmed.  Batches of
/// these are handed to a strategy, which must fully drain the batch.
#[derive(Clone, Copy, Debug)]
pub struct Acked {
    /// Packet number.
    pub pkt_num: u64,
    /// Tick at which the packet was sent.
    pub time_sent: u64,
    /// Size of the packet in bytes.
    pub size: usize,
}

/// Round-trip-time samples, owned and updated by an external estimator and
/// read-only to the strategies.
#[derive(Clone, Copy, Debug)]
pub struct RttStats {
    /// Most recent RTT sample, in ticks.
    pub latest_rtt: u64,
    /// Smoothed RTT, in ticks.
    pub smoothed_rtt: u64,
    /// RTT variance, in ticks.
    pub rttvar: u64,
    /// Minimum RTT observed, in ticks.
    pub min_rtt: u64,
}

} // verus!
