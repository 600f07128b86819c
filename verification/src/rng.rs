//! The crate's one window onto the shared random source.
//!
//! Every per-episode random quantity is drawn through `sample_uniform_i64`;
//! nothing else in the crate touches randomness.  Two draws on the same
//! bounds may of course differ, so contracts downstream state only what
//! holds of every outcome.

use vstd::prelude::*;
use rand::Rng;

verus! {

/// Draws a uniform integer in the half-open range `[lo, hi)`.
///
/// Relies on `rand::thread_rng` for the shared random source and on
/// `rand::Rng::gen_range`, whose uniform sampler over `lo..hi` returns a
/// value of that half-open range and panics only when the range is empty
/// (ruled out here by `lo < hi`).
#[verifier::external_body]
pub fn sample_uniform_i64(lo: i64, hi: i64) -> (r: i64)
    requires
        lo < hi,
    ensures
        lo <= r < hi,
{
    rand::thread_rng().gen_range(lo..hi)
}

} // verus!
