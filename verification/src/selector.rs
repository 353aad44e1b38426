//! The random selector: one restaurant out of a pool of candidates.

use crate::catalog::ResterauntItem;
use crate::error::PickError;
use crate::random::random_index;
use vstd::arithmetic::div_mod::{lemma_mod_bound, lemma_small_mod};
use vstd::prelude::*;

verus! {

/// The candidate that a draw stands for: the draw counts through the pool
/// and wraps around at its end. An empty pool has no candidate.
pub open spec fn drawn<T>(pool: Seq<T>, draw: int) -> Option<T> {
    if pool.len() == 0 {
        None
    } else {
        Some(pool[draw % (pool.len() as int)])
    }
}

/// Whatever a draw stands for in a pool is a member of the pool.
pub proof fn lemma_drawn_is_member<T>(pool: Seq<T>, draw: int)
    ensures
        drawn(pool, draw) matches Some(item) ==> pool.contains(item),
{
    if pool.len() > 0 {
        lemma_mod_bound(draw, pool.len() as int);
        assert(pool[draw % (pool.len() as int)] == drawn(pool, draw)->0);
    }
}

/// Picks the candidate that `draw` stands for, or fails with
/// `EmptyCandidatePool` when there is none to pick.
pub fn select_at<'a>(candidates: &Vec<&'a ResterauntItem>, draw: usize) -> (picked: Result<
    &'a ResterauntItem,
    PickError,
>)
    ensures
        match drawn(candidates@, draw as int) {
            Some(item) => picked == Ok::<&ResterauntItem, PickError>(item),
            None => picked == Err::<&ResterauntItem, PickError>(PickError::EmptyCandidatePool),
        },
{
    if candidates.len() == 0 {
        Err(PickError::EmptyCandidatePool)
    } else {
        Ok(candidates[draw % candidates.len()])
    }
}

/// Picks one candidate at random, or fails with `EmptyCandidatePool` when
/// there is none to pick. Which candidate comes back is up to the random
/// generator, which gives every index of the pool the same chance.
pub fn select<'a>(candidates: &Vec<&'a ResterauntItem>) -> (picked: Result<
    &'a ResterauntItem,
    PickError,
>)
    ensures
        candidates.len() == 0 ==> picked == Err::<&ResterauntItem, PickError>(
            PickError::EmptyCandidatePool,
        ),
        candidates.len() > 0 ==> exists|draw: int|
            0 <= draw < candidates.len() && picked == Ok::<&ResterauntItem, PickError>(
                #[trigger] candidates[draw],
            ),
{
    if candidates.len() == 0 {
        Err(PickError::EmptyCandidatePool)
    } else {
        let draw = random_index(candidates.len());
        let picked = select_at(candidates, draw);
        assert(draw as int % (candidates.len() as int) == draw as int) by {
            lemma_small_mod(draw as nat, candidates.len() as nat);
        }
        assert(picked == Ok::<&ResterauntItem, PickError>(candidates[draw as int]));
        picked
    }
}

} // verus!
