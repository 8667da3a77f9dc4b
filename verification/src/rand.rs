//! Random values from the thread's generator: numbers in a range, a coin
//! flip, an element of a slice, a slice in random order.

use ::rand::seq::{IndexedRandom, SliceRandom};
use ::rand::Rng;
use vstd::prelude::*;

verus! {

/// `Rng::random_range` over `min..=max` on the thread's generator. The range
/// must not be empty. Which value of the range comes out is left open.
#[verifier::external_body]
fn uniform_inclusive(min: i32, max: i32) -> (value: i32)
    requires
        min <= max,
    ensures
        min <= value <= max,
{
    ::rand::rng().random_range(min..=max)
}

/// `Rng::random_ratio` on the thread's generator: `true` with probability
/// `numerator / denominator`, which must be a probability. Nothing is known
/// of a single draw.
#[verifier::external_body]
fn bernoulli(numerator: u32, denominator: u32) -> bool
    requires
        0 < denominator,
        numerator <= denominator,
{
    ::rand::rng().random_ratio(numerator, denominator)
}

/// `IndexedRandom::choose` on the thread's generator: nothing from an empty
/// slice, and otherwise a reference to one of the elements.
#[verifier::external_body]
fn pick<T>(slice: &[T]) -> (chosen: Option<&T>)
    ensures
        chosen is None <==> slice@.len() == 0,
        chosen matches Some(item) ==> exists|i: int| 0 <= i < slice@.len() && slice@[i] == *item,
{
    slice.choose(&mut ::rand::rng())
}

/// `SliceRandom::shuffle` on the thread's generator: it only swaps elements,
/// so the slice keeps its length and holds each value as often as before.
#[verifier::external_body]
fn permute<T>(slice: &mut [T])
    ensures
        final(slice)@.len() == old(slice)@.len(),
        final(slice)@.to_multiset() == old(slice)@.to_multiset(),
{
    slice.shuffle(&mut ::rand::rng())
}

/// A random integer between `min` and `max`, both included.
pub fn min_max(min: i32, max: i32) -> (value: i32)
    requires
        min <= max,
    ensures
        min <= value <= max,
{
    uniform_inclusive(min, max)
}

/// A fair coin flip.
pub fn random_bool() -> bool {
    bernoulli(1, 2)
}

/// A randomly chosen element of the slice, or `None` if it is empty.
pub fn random_choice<T>(slice: &[T]) -> (chosen: Option<&T>)
    ensures
        chosen is None <==> slice@.len() == 0,
        chosen matches Some(item) ==> exists|i: int| 0 <= i < slice@.len() && slice@[i] == *item,
{
    pick(slice)
}

/// Puts the elements of the slice in a random order, in place. The slice
/// holds the same values afterwards, each as often as before.
pub fn shuffle<T>(slice: &mut [T])
    ensures
        final(slice)@.len() == old(slice)@.len(),
        final(slice)@.to_multiset() == old(slice)@.to_multiset(),
{
    permute(slice)
}

} // verus!
