//! The seeded pseudo-random source behind spawn placement, cannon placement
//! and teleport targeting, wrapped around `rand`'s standard generator.
//!
//! Seeding with `StdRng::seed_from_u64` makes the stream a fixed function of
//! the seed, which is what lets a recorded run be replayed exactly.

use rand::rngs::StdRng;
use rand::Rng;
use rand::SeedableRng;
use vstd::prelude::*;

verus! {

#[verifier::external_type_specification]
#[verifier::external_body]
pub struct ExStdRng(StdRng);

/// Relies on rand's `SeedableRng::seed_from_u64`: it builds a generator whose
/// output stream is determined by the seed alone.
#[verifier::external_body]
pub(crate) fn rng_from_seed(seed: u64) -> StdRng {
    StdRng::seed_from_u64(seed)
}

/// Relies on rand's `Rng::gen_range` over the half-open range `lo..hi`: the
/// result is a uniform sample from `[lo, hi)`.  `gen_range` panics on an
/// empty range, which the precondition rules out.
#[verifier::external_body]
pub(crate) fn rng_gen_range(rng: &mut StdRng, lo: i32, hi: i32) -> (r: i32)
    requires
        lo < hi,
    ensures
        lo <= r < hi,
{
    rng.gen_range(lo..hi)
}

} // verus!
