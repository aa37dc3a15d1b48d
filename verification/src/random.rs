//! Dice rolls from the thread-local random number generator.
use rand::RngExt;
use vstd::prelude::*;

verus! {

/// Draws an integer from `lo..=hi` with `rand::RngExt::random_range` on the
/// thread-local generator `rand::rng()`. Claimed: the result lies in the
/// closed range (`random_range` asserts that the range is not empty, which
/// `requires` ensures). Which value in the range comes is chance and is not
/// stated.
#[verifier::external_body]
pub(crate) fn thread_random_in(lo: i32, hi: i32) -> (r: i32)
    requires
        lo <= hi,
    ensures
        lo <= r <= hi,
{
    rand::rng().random_range(lo..=hi)
}

} // verus!
