//! Trusted boundary around the entropy source: the crafting state owns a
//! small PRNG from the rand crate, and the simulation driver draws bounded
//! uniform values from it. Nothing about the stream of values is assumed
//! beyond the documented range of each draw.

use vstd::prelude::*;
use rand::Rng;
use rand::SeedableRng;

verus! {

/// Declares rand's `SmallRng` to the verifier; values of it are opaque.
#[verifier::external_type_specification]
#[verifier::external_body]
pub struct ExSmallRng(rand::rngs::SmallRng);

/// Relies on rand's derived `Clone` for `SmallRng`; the crafting state's
/// own `Clone` needs it, and nothing is assumed about the clone's relation
/// to the original.
pub assume_specification[ <rand::rngs::SmallRng as Clone>::clone ](
    rng: &rand::rngs::SmallRng,
) -> rand::rngs::SmallRng;

/// Relies on rand's `SeedableRng::seed_from_u64`: builds a generator from a
/// caller-chosen seed, so replays can be made deterministic.
#[verifier::external_body]
pub(crate) fn rng_from_seed(seed: u64) -> rand::rngs::SmallRng {
    rand::rngs::SmallRng::seed_from_u64(seed)
}

/// Relies on rand's `SeedableRng::from_entropy`: builds a generator from
/// operating-system entropy. Panics only if the operating system cannot
/// supply entropy.
#[verifier::external_body]
pub(crate) fn rng_from_entropy() -> rand::rngs::SmallRng {
    rand::rngs::SmallRng::from_entropy()
}

/// Relies on rand's `Rng::gen_range` over `0..bound`: returns a value below
/// `bound`. The documented panic on an empty range is excluded by the
/// precondition; which value comes back is not specified.
#[verifier::external_body]
pub(crate) fn rng_below(rng: &mut rand::rngs::SmallRng, bound: u32) -> (r: u32)
    requires
        bound >= 1,
    ensures
        r < bound,
{
    rng.gen_range(0..bound)
}

} // verus!
