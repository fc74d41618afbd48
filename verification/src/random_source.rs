//! The library's only access to randomness: thin trusted wrappers
//! around the process-wide thread-local generator of the `rand` crate.
//! No seed is exposed; callers state only what holds of every outcome.

use vstd::prelude::*;

use rand::Rng;

verus! {

/// Relies on rand's `Rng::gen_range` over `lo..=hi`: it panics only on
/// an empty range and otherwise returns a value inside the range.
#[verifier::external_body]
pub(crate) fn random_in_range(lo: i32, hi: i32) -> (r: i32)
    requires
        lo <= hi,
    ensures
        lo <= r <= hi,
{
    rand::thread_rng().gen_range(lo..=hi)
}

/// Relies on rand's `Rng::gen_range` over `lo..=hi`: it panics only on
/// an empty range and otherwise returns a value inside the range.
#[verifier::external_body]
pub(crate) fn random_in_range_i64(lo: i64, hi: i64) -> (r: i64)
    requires
        lo <= hi,
    ensures
        lo <= r <= hi,
{
    rand::thread_rng().gen_range(lo..=hi)
}

/// Relies on rand's `Rng::gen_range` over `0..n`: it panics only on an
/// empty range and otherwise returns a value inside the range.
#[verifier::external_body]
pub(crate) fn random_index(n: usize) -> (r: usize)
    requires
        n >= 1,
    ensures
        r < n,
{
    rand::thread_rng().gen_range(0..n)
}

} // verus!
