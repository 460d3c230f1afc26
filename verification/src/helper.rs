//! Chance: the two calls into the random number generator, and what the
//! library draws with them.

use rand::seq::SliceRandom;
use rand::Rng;
use vstd::prelude::*;

verus! {

/// Draws a number below `bound`: `rand::Rng::gen_range` over `0..bound`, on
/// the generator that `rand::thread_rng` hands out. Taken on trust, not
/// proved: the number that `gen_range` returns lies in the range it was
/// given. `gen_range` panics on an empty range, so `bound` is positive.
#[verifier::external_body]
pub(crate) fn roll_below(bound: u32) -> (r: u32)
    requires
        bound > 0,
    ensures
        r < bound,
{
    rand::thread_rng().gen_range(0..bound)
}

/// Picks an item of `items`: `rand::seq::SliceRandom::choose` on the slice
/// of the items, with the generator that `rand::thread_rng` hands out.
/// Taken on trust, not proved: `choose` returns nothing exactly when the
/// slice is empty, and what it returns is an item of the slice.
#[verifier::external_body]
pub(crate) fn pick_one<T>(items: &Vec<T>) -> (r: Option<&T>)
    ensures
        r is None <==> items@.len() == 0,
        r matches Some(item) ==> items@.contains(*item),
{
    items.choose(&mut rand::thread_rng())
}

/// An item of `vec`, picked by chance.
pub fn get_random<T>(vec: &Vec<T>) -> (r: &T)
    requires
        vec@.len() > 0,
    ensures
        vec@.contains(*r),
{
    pick_one(vec).unwrap()
}

} // verus!
