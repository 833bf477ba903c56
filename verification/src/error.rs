//! Error taxonomy of the game engine.

use vstd::prelude::*;

verus! {

/// A play on "real error": everything that can go wrong inside the engine.
///
/// Generation errors are reported, never silently defaulted; gameplay losses
/// (a missed fish, a snapped line) are ordinary outcomes, not errors.
#[derive(Clone, Copy, Debug, PartialEq, Eq, Structural)]
pub enum ReelError {
    /// An attribute whose triple does not satisfy `min <= average <= max`,
    /// or whose values are too large for the sampler's arithmetic.
    MathError,
    /// A weighted choice whose weights sum to zero.
    RandomError,
    /// An attribute whose average is zero, so value ratios are undefined.
    ZeroAverage,
}

impl ReelError {
    /// A short human-readable tag for the error, for callers that log it.
    pub fn describe(&self) -> (r: &'static str)
        ensures
            self is MathError ==> r == "Math Error",
            self is RandomError ==> r == "Random Error",
            self is ZeroAverage ==> r == "Zero Average",
    {
        match self {
            ReelError::MathError => "Math Error",
            ReelError::RandomError => "Random Error",
            ReelError::ZeroAverage => "Zero Average",
        }
    }
}

} // verus!
