//! Random draws for the simulation, behind trusted wrappers.
//!
//! All verified decision logic takes the drawn numbers as plain arguments;
//! these wrappers only produce draws, and their contracts state no more
//! than the range each draw falls in. Nothing about the distribution or
//! about any particular value is assumed.

use vstd::prelude::*;

verus! {

#[verifier::external_type_specification]
#[verifier::external_body]
/// Declares rand's standard generator so it can appear in signatures.
pub struct ExStdRng(rand::rngs::StdRng);

/// Relies on rand_core's SeedableRng::seed_from_u64: builds a generator
/// from a 64-bit seed. Nothing is assumed about the stream it produces.
#[verifier::external_body]
pub fn rng_from_seed(seed: u64) -> rand::rngs::StdRng {
    <rand::rngs::StdRng as rand::SeedableRng>::seed_from_u64(seed)
}

/// Relies on rand's Rng::gen_range over `0..n`: returns a value of the
/// non-empty range, so the result is below `n`. `n > 0` is required
/// because gen_range panics on an empty range.
#[verifier::external_body]
pub fn draw_below(rng: &mut rand::rngs::StdRng, n: u32) -> (r: u32)
    requires
        n > 0,
    ensures
        r < n,
{
    rand::Rng::gen_range(rng, 0..n)
}

/// Relies on rand's Rng::gen_range over `lo..hi`: returns a value of the
/// non-empty range `lo..hi`. `lo < hi` is required because gen_range
/// panics on an empty range.
#[verifier::external_body]
pub fn draw_in_range(rng: &mut rand::rngs::StdRng, lo: i64, hi: i64) -> (r: i64)
    requires
        lo < hi,
    ensures
        lo <= r < hi,
{
    rand::Rng::gen_range(rng, lo..hi)
}

} // verus!
