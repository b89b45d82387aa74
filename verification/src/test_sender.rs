//! A miniature stand-in for the recovery engine, for driving a container
//! through packet lifecycles: it owns the bytes-in-flight accounting (the
//! strategies only mirror it), numbers packets, and invokes the interface
//! operations at the contractual points.

use vstd::prelude::*;

use crate::algorithm::CongestionControlAlgorithm;
use crate::congestion::batch_ordered;
use crate::congestion::spec_congestion_event;
use crate::congestion::spec_new;
use crate::congestion::spec_on_packet_sent;
use crate::congestion::spec_on_packets_acked;
use crate::congestion::Congestion;
use crate::types::Acked;
use crate::types::RttStats;
use crate::types::Sent;
use crate::types::MAX_DATAGRAM_SIZE;

verus! {

/// The acknowledgment batch covering `n` packets of `size` bytes each,
/// numbered consecutively from `start`, all sent at `time`.
pub open spec fn spec_ack_batch(start: u64, n: nat, size: usize, time: u64) -> Seq<Acked> {
    Seq::new(n, |i: int| Acked { pkt_num: (start + i) as u64, time_sent: time, size })
}

/// The record handed to `congestion_event` as the largest packet of a
/// loss covering packets up to `pkt_num`, each of `size` bytes, sent at
/// `time`.
pub open spec fn spec_largest_lost(pkt_num: u64, size: usize, time: u64) -> Sent {
    Sent { pkt_num, time_sent: time, size, ack_eliciting: true, in_flight: true }
}

/// A sending endpoint reduced to what the strategy interface observes:
/// the container, the caller-side in-flight accounting, packet numbering
/// and a tick clock.
pub struct TestSender {
    /// The congestion state container under test.
    pub congestion: Congestion,
    /// Size used for maximum-size packets.
    pub max_datagram_size: usize,
    /// Number the next transmitted packet gets.
    pub next_pkt_num: u64,
    /// Number of the oldest packet not yet acknowledged.
    pub next_ack_pkt_num: u64,
    /// Current tick; advances by one per transmission.
    pub now: u64,
    /// RTT samples handed along with acknowledgment batches.
    pub rtt_stats: RttStats,
}

impl TestSender {
    /// A fresh sender with a container bound to `algorithm` and nothing
    /// in flight.
    pub fn new(algorithm: CongestionControlAlgorithm) -> (res: TestSender)
        ensures
            res.congestion == spec_new(algorithm),
            res.congestion.wf(),
            res.congestion.bytes_in_flight == 0,
            res.max_datagram_size == MAX_DATAGRAM_SIZE,
            res.next_pkt_num == 0,
            res.next_ack_pkt_num == 0,
            res.now == 0,
    {
        TestSender {
            congestion: Congestion::new(algorithm),
            max_datagram_size: MAX_DATAGRAM_SIZE,
            next_pkt_num: 0,
            next_ack_pkt_num: 0,
            now: 0,
            rtt_stats: RttStats { latest_rtt: 0, smoothed_rtt: 0, rttvar: 0, min_rtt: 0 },
        }
    }

    /// Current congestion window of the container.
    pub fn congestion_window(&self) -> (res: usize)
        ensures
            res == self.congestion.congestion_window,
    {
        self.congestion.congestion_window
    }

    /// Current caller-tracked bytes in flight.
    pub fn bytes_in_flight(&self) -> (res: usize)
        ensures
            res == self.congestion.bytes_in_flight,
    {
        self.congestion.bytes_in_flight
    }

    /// Transmits one packet of `size` bytes: notifies the strategy, then
    /// adds the size to the caller-tracked bytes in flight.
    pub fn send_packet(&mut self, size: usize)
        requires
            old(self).congestion.bytes_in_flight + size <= usize::MAX,
            old(self).next_pkt_num < u64::MAX,
            old(self).now < u64::MAX,
        ensures
            final(self).congestion == (Congestion {
                bytes_in_flight: (old(self).congestion.bytes_in_flight + size) as usize,
                ..spec_on_packet_sent(
                    old(self).congestion,
                    size,
                    old(self).congestion.bytes_in_flight,
                    old(self).now,
                )
            }),
            final(self).next_pkt_num == old(self).next_pkt_num + 1,
            final(self).now == old(self).now + 1,
            final(self).max_datagram_size == old(self).max_datagram_size,
            final(self).next_ack_pkt_num == old(self).next_ack_pkt_num,
            final(self).rtt_stats == old(self).rtt_stats,
    {
        let bytes_in_flight = self.congestion.bytes_in_flight;
        self.congestion.on_packet_sent(size, bytes_in_flight, self.now);
        self.congestion.bytes_in_flight = bytes_in_flight + size;
        self.next_pkt_num = self.next_pkt_num + 1;
        self.now = self.now + 1;
    }

    /// Acknowledges the `n` oldest unacknowledged packets, `size` bytes
    /// each: hands the strategy the batch in ascending order, then
    /// subtracts the acknowledged bytes from the caller-tracked value.
    pub fn ack_n_packets(&mut self, n: usize, size: usize)
        requires
            n * size <= old(self).congestion.bytes_in_flight,
            old(self).next_ack_pkt_num + n <= u64::MAX,
        ensures
            final(self).congestion == (Congestion {
                bytes_in_flight: (old(self).congestion.bytes_in_flight - n * size) as usize,
                ..spec_on_packets_acked(
                    old(self).congestion,
                    old(self).congestion.bytes_in_flight,
                    spec_ack_batch(old(self).next_ack_pkt_num, n as nat, size, old(self).now),
                    old(self).now,
                    old(self).rtt_stats,
                )
            }),
            final(self).next_ack_pkt_num == old(self).next_ack_pkt_num + n,
            final(self).next_pkt_num == old(self).next_pkt_num,
            final(self).now == old(self).now,
            final(self).max_datagram_size == old(self).max_datagram_size,
            final(self).rtt_stats == old(self).rtt_stats,
    {
        let ghost start = self.next_ack_pkt_num;
        let total = n * size;
        let mut batch: Vec<Acked> = Vec::new();
        let mut i: usize = 0;
        while i < n
            invariant
                i <= n,
                self == old(self),
                start == old(self).next_ack_pkt_num,
                old(self).next_ack_pkt_num + n <= u64::MAX,
                batch@.len() == i,
                forall|j: int|
                    0 <= j < i ==> batch@[j] == (Acked {
                        pkt_num: (start + j) as u64,
                        time_sent: old(self).now,
                        size,
                    }),
            decreases n - i,
        {
            batch.push(
                Acked {
                    pkt_num: self.next_ack_pkt_num + i as u64,
                    time_sent: self.now,
                    size,
                },
            );
            i = i + 1;
        }
        proof {
            assert(batch@ =~= spec_ack_batch(start, n as nat, size, old(self).now));
            assert forall|a: int, b: int|
                0 <= a < b < batch@.len() implies batch@[a].pkt_num < batch@[b].pkt_num
                && batch@[a].time_sent <= batch@[b].time_sent by {
                assert(batch@[a].pkt_num == (start + a) as u64);
                assert(batch@[b].pkt_num == (start + b) as u64);
            }
            assert(batch_ordered(batch@));
        }
        let bytes_in_flight = self.congestion.bytes_in_flight;
        self.congestion.on_packets_acked(bytes_in_flight, &mut batch, self.now, &self.rtt_stats);
        self.congestion.bytes_in_flight = bytes_in_flight - total;
        self.next_ack_pkt_num = self.next_ack_pkt_num + n as u64;
    }

    /// Declares the `n` most recent packets lost, `size` bytes each, at
    /// `time` (or the current tick if absent): signals the strategy once,
    /// then subtracts the lost bytes from the caller-tracked value.
    pub fn lose_n_packets(&mut self, n: usize, size: usize, time: Option<u64>)
        requires
            n * size <= old(self).congestion.bytes_in_flight,
        ensures
            final(self).congestion == (Congestion {
                bytes_in_flight: (old(self).congestion.bytes_in_flight - n * size) as usize,
                ..spec_congestion_event(
                    old(self).congestion,
                    old(self).congestion.bytes_in_flight,
                    (n * size) as usize,
                    spec_largest_lost(
                        old(self).next_pkt_num,
                        size,
                        match time {
                            Option::Some(t) => t,
                            Option::None => old(self).now,
                        },
                    ),
                    match time {
                        Option::Some(t) => t,
                        Option::None => old(self).now,
                    },
                )
            }),
            final(self).next_pkt_num == old(self).next_pkt_num,
            final(self).next_ack_pkt_num == old(self).next_ack_pkt_num,
            final(self).now == old(self).now,
            final(self).max_datagram_size == old(self).max_datagram_size,
            final(self).rtt_stats == old(self).rtt_stats,
    {
        let total = n * size;
        let t = match time {
            Option::Some(t) => t,
            Option::None => self.now,
        };
        let largest_lost_pkt = Sent {
            pkt_num: self.next_pkt_num,
            time_sent: t,
            size,
            ack_eliciting: true,
            in_flight: true,
        };
        let bytes_in_flight = self.congestion.bytes_in_flight;
        self.congestion.congestion_event(bytes_in_flight, total, &largest_lost_pkt, t);
        self.congestion.bytes_in_flight = bytes_in_flight - total;
    }
}

} // verus!
