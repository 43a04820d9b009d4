//! The random draws of world generation, made by the `rand` crate.
//!
//! Nothing here is proved: each contract below is taken from the
//! documentation of the function that the body calls.

use rand::Rng;
use vstd::prelude::*;

verus! {

/// Draws a level between `low` and `high`, both included, by
/// `rand::Rng::gen_range` on the generator of the current thread
/// (`rand::thread_rng`). `gen_range` panics on an empty range, so `low` may
/// not exceed `high`; of the value it returns it promises that it lies in
/// the range, and that is all the contract claims. Which value of the range
/// comes back differs from call to call.
#[verifier::external_body]
pub(crate) fn random_level(low: usize, high: usize) -> (level: usize)
    requires
        low <= high,
    ensures
        low <= level <= high,
{
    rand::thread_rng().gen_range(low..=high)
}

/// Draws a seed by `rand::random`. Any value may come back.
#[verifier::external_body]
pub(crate) fn random_seed() -> (seed: u32) {
    rand::random::<u32>()
}

} // verus!
