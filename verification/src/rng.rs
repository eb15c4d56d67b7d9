//! Seedable randomness for the spawner, behind narrow trusted wrappers.
//!
//! The spawner only ever needs a uniformly drawn integer from a bounded
//! inclusive range. The generator is injected explicitly (never ambient),
//! so spawn sequences are reproducible in tests by fixing the seed.

use rand::Rng;
use rand::SeedableRng;
use vstd::prelude::*;

verus! {

#[verifier::external_type_specification]
#[verifier::external_body]
pub struct ExStdRng(rand::rngs::StdRng);

/// Relies on rand::SeedableRng::seed_from_u64: builds a generator from a
/// word-sized seed, deterministically for a given seed, and does not panic.
#[verifier::external_body]
fn stdrng_from_seed(seed: u64) -> rand::rngs::StdRng {
    rand::rngs::StdRng::seed_from_u64(seed)
}

/// Relies on rand::Rng::random_range on the inclusive range `lo..=hi`:
/// with `lo <= hi` the range is non-empty, so the call does not panic and
/// the sample lies within the range.
#[verifier::external_body]
fn draw_in_range(rng: &mut rand::rngs::StdRng, lo: i32, hi: i32) -> (r: i32)
    requires
        lo <= hi,
    ensures
        lo <= r <= hi,
{
    rng.random_range(lo..=hi)
}

/// A reseedable source of bounded random draws for obstacle spawning.
pub struct GapRng {
    rng: rand::rngs::StdRng,
}

impl GapRng {
    /// A generator whose draw sequence is fixed by `seed`.
    pub fn from_seed(seed: u64) -> GapRng {
        GapRng { rng: stdrng_from_seed(seed) }
    }

    /// A draw from the inclusive range `lo..=hi`.
    pub fn draw(&mut self, lo: i32, hi: i32) -> (r: i32)
        requires
            lo <= hi,
        ensures
            lo <= r <= hi,
    {
        draw_in_range(&mut self.rng, lo, hi)
    }
}

} // verus!
