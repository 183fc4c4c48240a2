//! Random draws for the game simulation, taken from `rand`'s thread-local generator.
use rand::Rng;
use vstd::prelude::*;

verus! {

#[verifier::external_type_specification]
#[verifier::external_body]
pub struct ExThreadRng(rand::rngs::ThreadRng);

/// Calls `rand::Rng::gen_range` on the half-open range `lo..hi` of `i32`.
/// The crate's documentation promises a value sampled from the range; the
/// method asserts (panics) on an empty range, which `requires` excludes.
/// Which value comes back is left open: it is chance.
#[verifier::external_body]
pub(crate) fn roll_i32(rng: &mut rand::rngs::ThreadRng, lo: i32, hi: i32) -> (r: i32)
    requires
        lo < hi,
    ensures
        lo <= r < hi,
{
    rng.gen_range(lo..hi)
}

/// Calls `rand::Rng::gen_range` on the half-open range `lo..hi` of `i64`.
/// Same promise as for `roll_i32`: a value of the range, which one is chance.
#[verifier::external_body]
pub(crate) fn roll_i64(rng: &mut rand::rngs::ThreadRng, lo: i64, hi: i64) -> (r: i64)
    requires
        lo < hi,
    ensures
        lo <= r < hi,
{
    rng.gen_range(lo..hi)
}

/// Calls `rand::Rng::gen_range` on the half-open range `lo..hi` of `usize`.
/// Same promise as for `roll_i32`: a value of the range, which one is chance.
#[verifier::external_body]
pub(crate) fn roll_usize(rng: &mut rand::rngs::ThreadRng, lo: usize, hi: usize) -> (r: usize)
    requires
        lo < hi,
    ensures
        lo <= r < hi,
{
    rng.gen_range(lo..hi)
}

} // verus!
