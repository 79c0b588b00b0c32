//! Seeded randomness for scenario construction.
//!
//! Matches are reproducible: every random draw comes from a generator
//! seeded from the match seed. The generator itself comes from the rand
//! crate; only the bound stated here is relied on.

use vstd::prelude::*;

use rand::Rng;
use rand::SeedableRng;

verus! {

/// Declares rand's `StdRng` so that signatures may carry it; the
/// generator stays opaque to the verifier.
#[verifier::external_type_specification]
#[verifier::external_body]
pub struct ExStdRng(rand::rngs::StdRng);

/// Relies on rand's `StdRng::seed_from_u64`: builds a generator whose
/// stream is a function of the seed alone.
#[verifier::external_body]
pub fn new_rng(seed: u64) -> (r: rand::rngs::StdRng) {
    rand::rngs::StdRng::seed_from_u64(seed)
}

/// Relies on rand's `Rng::gen_range` over `0..n`: returns a value of the
/// range, and panics only on an empty range, which the precondition
/// excludes.
#[verifier::external_body]
pub fn gen_below(rng: &mut rand::rngs::StdRng, n: u32) -> (r: u32)
    requires
        n > 0,
    ensures
        r < n,
{
    rng.gen_range(0..n)
}

} // verus!
