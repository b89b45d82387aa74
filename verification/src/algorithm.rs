//! Algorithm selection: the closed set of variant names and the parser
//! that turns a textual selector into a variant.
//!
//! An unrecognized selector is a construction-time failure, never a silent
//! fallback to a default algorithm.

use vstd::prelude::*;

verus! {

/// The closed set of congestion-control algorithm variants.  Exactly one
/// is bound to a connection's state container for its entire lifetime.
#[derive(Clone, Copy, Debug, PartialEq, Eq, Structural)]
pub enum CongestionControlAlgorithm {
    /// Reference variant: pins the window at the maximum sentinel and
    /// ignores all congestion feedback (fail-open, for controlled
    /// networks).
    Disabled,
    /// Loss-reactive, window-adjusting variant.
    Reno,
}

/// Error returned when a selector string names no known variant.
#[derive(Clone, Copy, Debug, PartialEq, Eq, Structural)]
pub struct UnknownAlgorithm;

/// What parsing a selector yields: the variant its name denotes, or a
/// failure for any other string.
pub open spec fn spec_parse(s: Seq<char>) -> Result<CongestionControlAlgorithm, UnknownAlgorithm> {
    if s == "none"@ {
        Ok(CongestionControlAlgorithm::Disabled)
    } else if s == "reno"@ {
        Ok(CongestionControlAlgorithm::Reno)
    } else {
        Err(UnknownAlgorithm)
    }
}

/// Parses a selector string into an algorithm variant.
pub fn parse_algorithm(name: &str) -> (res: Result<CongestionControlAlgorithm, UnknownAlgorithm>)
    ensures
        res == spec_parse(name@),
{
    let owned: String = name.to_owned();
    if owned == "none".to_owned() {
        Ok(CongestionControlAlgorithm::Disabled)
    } else if owned == "reno".to_owned() {
        Ok(CongestionControlAlgorithm::Reno)
    } else {
        Err(UnknownAlgorithm)
    }
}

impl core::str::FromStr for CongestionControlAlgorithm {
    type Err = UnknownAlgorithm;

    fn from_str(s: &str) -> Result<CongestionControlAlgorithm, UnknownAlgorithm> {
        parse_algorithm(s)
    }
}

} // verus!
