//! The random draws of the session, taken from the `rand` crate's
//! thread-local generator. Nothing is proved of these two functions: their
//! contracts state what `rand` documents of its own.

use rand::seq::SliceRandom;
use rand::Rng;
use vstd::prelude::*;

verus! {

/// Calls `rand::Rng::gen_range` with the range `0..bound` on the generator
/// that `rand::thread_rng()` hands out.
///
/// `gen_range` panics on an empty range, so `bound` must be positive. All
/// that is claimed of the result is that it lies in the range; which index
/// comes back is up to the generator.
#[verifier::external_body]
pub(crate) fn random_index(bound: usize) -> (index: usize)
    requires
        bound > 0,
    ensures
        index < bound,
{
    rand::thread_rng().gen_range(0..bound)
}

/// Calls `rand::seq::SliceRandom::choose` on `tags`, with the generator that
/// `rand::thread_rng()` hands out.
///
/// `choose` returns `None` for an empty slice and otherwise a reference to
/// one of the slice's elements; which one is up to the generator.
#[verifier::external_body]
pub(crate) fn choose_category<'a>(tags: &'a Vec<String>) -> (chosen: Option<&'a String>)
    ensures
        chosen is None <==> tags.len() == 0,
        chosen matches Some(tag) ==> exists|i: int| 0 <= i < tags.len() && tags[i] == *tag,
{
    tags.choose(&mut rand::thread_rng())
}

} // verus!
