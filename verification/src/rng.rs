use vstd::prelude::*;

use rand::Rng;

verus! {

/// Relies on rand's `Rng::gen_range` over a half-open `i64` range: the
/// sampled value lies in `[low, high)`; the call panics only on an empty
/// range, which the precondition excludes.
#[verifier::external_body]
pub(crate) fn rand_range_i64(low: i64, high: i64) -> (r: i64)
    requires
        low < high,
    ensures
        low <= r < high,
{
    rand::thread_rng().gen_range(low..high)
}

/// Relies on rand's `Rng::gen_range` over a half-open `usize` range: the
/// sampled value lies in `[low, high)`; the call panics only on an empty
/// range, which the precondition excludes.
#[verifier::external_body]
pub(crate) fn rand_range_usize(low: usize, high: usize) -> (r: usize)
    requires
        low < high,
    ensures
        low <= r < high,
{
    rand::thread_rng().gen_range(low..high)
}

} // verus!
