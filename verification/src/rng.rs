//! The engine's single source of randomness.
//!
//! Every random decision in the library — depths, rarities, species picks,
//! attribute samples, hook checks, challenge codes — is derived from uniform
//! integer draws made here. The verified code then works for every value the
//! draw can take.

use vstd::prelude::*;

verus! {

/// Relies on `rand::random_range` over `lo..=hi`: a draw from a nonempty
/// inclusive integer range always lies within that range.
#[verifier::external_body]
pub fn random_in_range(lo: u64, hi: u64) -> (r: u64)
    requires
        lo <= hi,
    ensures
        lo <= r <= hi,
{
    rand::random_range(lo..=hi)
}

} // verus!
