//! A random integer from a half-open range.

use ::rand::Rng;
use std::ops::Range;
use vstd::prelude::*;

verus! {

/// `Rng::random_range` over a half-open range on the thread's generator. The
/// range must not be empty. Which value of the range comes out is left open.
#[verifier::external_body]
fn uniform_half_open(range: Range<i32>) -> (value: i32)
    requires
        range.start < range.end,
    ensures
        range.start <= value < range.end,
{
    ::rand::rng().random_range(range)
}

/// A random integer of `range`: at least its start and below its end.
pub fn generate_random_between_limits(range: Range<i32>) -> (value: i32)
    requires
        range.start < range.end,
    ensures
        range.start <= value < range.end,
{
    uniform_half_open(range)
}

} // verus!
