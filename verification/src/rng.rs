//! The seeded random number generator behind obstacle generation.
//!
//! The generator itself comes from the `bracket-lib` crate; this module
//! declares the type to the verifier and wraps the two calls the game
//! makes. Everything stated of a drawn value holds of every outcome.

use vstd::prelude::*;

verus! {

#[verifier::external_type_specification]
#[verifier::external_body]
pub struct ExRandomNumberGenerator(bracket_lib::random::RandomNumberGenerator);

/// Relies on `RandomNumberGenerator::seeded`: builds a generator from the
/// given seed, so a run can be replayed by injecting the same seed.
#[verifier::external_body]
pub fn rng_seeded(seed: u64) -> bracket_lib::random::RandomNumberGenerator {
    bracket_lib::random::RandomNumberGenerator::seeded(seed)
}

/// Relies on `RandomNumberGenerator::range`: a draw is inclusive of `min`
/// and exclusive of `max`. The call panics on an empty range, so one is
/// ruled out here.
#[verifier::external_body]
pub fn rng_range(rng: &mut bracket_lib::random::RandomNumberGenerator, min: i32, max: i32) -> (r:
    i32)
    requires
        min < max,
    ensures
        min <= r < max,
{
    rng.range(min, max)
}

} // verus!
