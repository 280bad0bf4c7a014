//! The random source that the engines draw from.

use rand::rngs::SmallRng;
use vstd::prelude::*;

verus! {

/// The generator that the game owns and lends to the engines.
#[verifier::external_type_specification]
#[verifier::external_body]
pub struct ExSmallRng(SmallRng);

/// Relies on rand_core's `RngCore::next_u32` for `SmallRng`: any `u32` may
/// come back, and the generator advances.
#[verifier::external_body]
pub(crate) fn next_u32(rng: &mut SmallRng) -> u32 {
    rand_core::RngCore::next_u32(rng)
}

/// Relies on rand's `Rng::gen_range` over `low..=high`: the value lies in
/// that range. It panics only on an empty range, which `requires` excludes.
#[verifier::external_body]
pub(crate) fn gen_range_inclusive(rng: &mut SmallRng, low: u32, high: u32) -> (r: u32)
    requires
        low <= high,
    ensures
        low <= r <= high,
{
    rand::Rng::gen_range(rng, low..=high)
}

} // verus!
