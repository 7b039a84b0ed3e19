//! Randomness for the simulation.
//!
//! The engine owns a single pseudo-random generator and threads it by unique
//! reference through every column operation. The generator itself comes from
//! the `rand` crate; the thin wrappers here are the only places where the
//! library leaves verified code, and each states no more than `rand`
//! documents: a drawn value lies inside the requested non-empty range.

use vstd::prelude::*;

verus! {

#[verifier::external_type_specification]
#[verifier::external_body]
pub struct ExStdRng(rand::rngs::StdRng);

/// Relies on rand's `SeedableRng::from_entropy`: a fresh generator seeded
/// from operating-system entropy. Nothing is promised of the values it will
/// produce.
#[verifier::external_body]
pub(crate) fn fresh_rng() -> rand::rngs::StdRng {
    rand::SeedableRng::from_entropy()
}

/// A uniform draw strictly below `n`.
pub(crate) fn rng_below(rng: &mut rand::rngs::StdRng, n: u32) -> (r: u32)
    requires
        n >= 1,
    ensures
        r < n,
{
    rng_range_u32(rng, 0, n - 1)
}

/// A uniform draw strictly below `n`.
pub(crate) fn rng_below_usize(rng: &mut rand::rngs::StdRng, n: usize) -> (r: usize)
    requires
        n >= 1,
    ensures
        r < n,
{
    rng_range_usize(rng, 0, n - 1)
}

/// Relies on rand's `Rng::gen_range` on the inclusive range `lo..=hi`: the
/// drawn value lies inside the range; the call panics only on an empty
/// range, which the precondition rules out.
#[verifier::external_body]
pub(crate) fn rng_range_u32(rng: &mut rand::rngs::StdRng, lo: u32, hi: u32) -> (r: u32)
    requires
        lo <= hi,
    ensures
        lo <= r <= hi,
{
    rand::Rng::gen_range(rng, lo..=hi)
}

/// Relies on rand's `Rng::gen_range` on the inclusive range `lo..=hi`: the
/// drawn value lies inside the range; the call panics only on an empty
/// range, which the precondition rules out.
#[verifier::external_body]
pub(crate) fn rng_range_usize(rng: &mut rand::rngs::StdRng, lo: usize, hi: usize) -> (r: usize)
    requires
        lo <= hi,
    ensures
        lo <= r <= hi,
{
    rand::Rng::gen_range(rng, lo..=hi)
}

} // verus!
