//! The random source of the simulation.
//!
//! The generator is `rand`'s, and what this module says of it is taken on
//! trust: each item but the last states what the `rand` crate documents of
//! the call it makes, without proof. The rest of the library is verified
//! against those statements for every value a draw can give.

use vstd::prelude::*;
use rand::rngs::StdRng;
use rand::Rng;
use rand::SeedableRng;

verus! {

/// `rand::rngs::StdRng`, the generator that the simulation draws from. Its
/// state is opaque to the library.
#[verifier::external_type_specification]
#[verifier::external_body]
pub struct ExStdRng(StdRng);

/// `Clone::clone` of the generator: the copy is another generator. Nothing
/// is claimed of it.
pub assume_specification[ <StdRng as Clone>::clone ](rng: &StdRng) -> (copy: StdRng)
;

/// Calls `Rng::gen_range` on the half-open range `0..bound`. The crate
/// documents that the sample lies in the range and that an empty range
/// panics, so `bound` must be positive and the result is below it.
#[verifier::external_body]
pub(crate) fn random_below(rng: &mut StdRng, bound: u32) -> (r: u32)
    requires
        bound > 0,
    ensures
        r < bound,
{
    rng.gen_range(0..bound)
}

/// The generator that `SeedableRng::seed_from_u64` makes of a seed. The
/// crate expands the seed by fixed arithmetic and hands it to the
/// generator's `from_seed`: the same seed gives the same generator, in every
/// process and on every machine. Nothing else is claimed of it.
pub uninterp spec fn spec_seeded_rng(seed: u64) -> StdRng;

/// Calls `SeedableRng::seed_from_u64`: the generator that the seed
/// determines. Nothing is claimed of its stream.
#[verifier::external_body]
pub(crate) fn seeded_rng(seed: u64) -> (rng: StdRng)
    ensures
        rng == spec_seeded_rng(seed),
{
    StdRng::seed_from_u64(seed)
}

/// Calls `SeedableRng::from_rng` on `rand::rngs::OsRng`: a generator seeded
/// by the operating system, or nothing where the system gives no entropy.
#[verifier::external_body]
pub(crate) fn system_rng() -> Option<StdRng> {
    StdRng::from_rng(rand::rngs::OsRng).ok()
}

/// A generator seeded by the operating system where it can be, and from the
/// fixed seed zero where the system gives no entropy.
pub(crate) fn fresh_rng() -> StdRng {
    match system_rng() {
        Some(rng) => rng,
        None => seeded_rng(0),
    }
}

} // verus!
