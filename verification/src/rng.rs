//! Trusted boundary around the pseudo-random generator.

use vstd::prelude::*;
use oorandom::Rand32;
use crate::game::SeedError;

verus! {

/// Declares `oorandom::Rand32`, the deterministic pseudo-random generator
/// the game state owns, so that it can stand in signatures and fields. Its
/// state is opaque here: the wrappers below claim only bounds on its draws.
#[verifier::external_type_specification]
#[verifier::external_body]
pub struct ExRand32(Rand32);

/// Relies on `oorandom::Rand32::new`: it builds a generator from the seed.
/// The generator's state is opaque here, so nothing is claimed of it.
#[verifier::external_body]
pub(crate) fn rand32_new(seed: u64) -> Rand32 {
    Rand32::new(seed)
}

/// Relies on `oorandom::Rand32::rand_range` on the range `0..end`: its source
/// multiplies a 32-bit draw by the range's width and keeps the high 32 bits,
/// so the result is always below `end`. An empty range divides by zero, hence
/// the lower bound on `end`. Which value comes back depends on the
/// generator's state, so no more is claimed.
#[verifier::external_body]
pub(crate) fn rand_range_from_zero(rng: &mut Rand32, end: u32) -> (r: u32)
    requires
        1 <= end,
    ensures
        r < end,
{
    rng.rand_range(0..end)
}

/// Relies on `getrandom::u64`: eight bytes of operating-system entropy as
/// one integer, or an error when the entropy source is unavailable. The
/// value depends on the machine's entropy alone, so nothing is claimed of
/// either outcome.
#[verifier::external_body]
pub(crate) fn entropy_seed() -> (r: Result<u64, SeedError>) {
    match getrandom::u64() {
        Ok(v) => Ok(v),
        Err(_) => Err(SeedError),
    }
}

} // verus!
