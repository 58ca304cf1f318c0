//! The library's only source of randomness: a seedable generator of the
//! `rand` crate behind two trusted wrappers.

use vstd::prelude::*;

use rand::Rng;
use rand::SeedableRng;

verus! {

#[verifier::external_type_specification]
#[verifier::external_body]
pub struct ExStdRng(rand::rngs::StdRng);

/// Relies on rand's `SeedableRng::seed_from_u64`: builds a generator from a
/// word-sized seed. Nothing is stated of the stream it will produce.
#[verifier::external_body]
pub fn rng_from_seed(seed: u64) -> rand::rngs::StdRng {
    rand::rngs::StdRng::seed_from_u64(seed)
}

/// Relies on rand's `Rng::gen_range`: a sample from `0..bound` is strictly
/// below the bound, whatever else holds of it. `gen_range` panics on an
/// empty range, so the bound must be positive.
#[verifier::external_body]
pub fn rand_below(rng: &mut rand::rngs::StdRng, bound: u64) -> (r: u64)
    requires
        bound > 0,
    ensures
        r < bound,
{
    rng.gen_range(0..bound)
}

} // verus!
