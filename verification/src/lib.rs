//! Pluggable congestion-control strategies for a transport loss-recovery
//! engine.
//!
//! A connection binds one algorithm variant to a [`congestion::Congestion`]
//! state container at construction time and then drives it through a fixed
//! set of packet-lifecycle operations.  A checkpoint/rollback mechanism lets
//! the recovery engine undo a window reduction when a loss declaration turns
//! out to be spurious.

pub mod algorithm;
pub mod congestion;
pub mod laws;
pub mod none;
pub mod reno;
pub mod test_sender;
pub mod types;
