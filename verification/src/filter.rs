//! The candidate filter: which restaurants of the catalog may be offered
//! under one liked category and a collection of disliked ones.

use crate::catalog::{catalog_items, GetAllRestaurantsResponse, ItemModel, ResterauntItem};
use vstd::prelude::*;

verus! {

/// No liked category is set (the empty string), or the tags include it.
pub open spec fn liked_eligible(tags: Seq<Seq<char>>, liked: Seq<char>) -> bool {
    liked.len() == 0 || tags.contains(liked)
}

/// Some tag is among the disliked categories.
pub open spec fn disliked_ineligible(tags: Seq<Seq<char>>, disliked: Seq<Seq<char>>) -> bool {
    exists|i: int| 0 <= i < tags.len() && disliked.contains(#[trigger] tags[i])
}

/// An item may be offered when it is liked-eligible and not
/// disliked-ineligible.
pub open spec fn eligible(item: ItemModel, liked: Seq<char>, disliked: Seq<Seq<char>>) -> bool {
    liked_eligible(item.categories(), liked) && !disliked_ineligible(item.categories(), disliked)
}

/// [`eligible`] under fixed preferences, as a predicate on items.
pub open spec fn eligibility(liked: Seq<char>, disliked: Seq<Seq<char>>) -> spec_fn(
    ItemModel,
) -> bool {
    |item: ItemModel| eligible(item, liked, disliked)
}

/// The eligible items of a list, in catalog order.
pub open spec fn eligible_items(
    items: Seq<ItemModel>,
    liked: Seq<char>,
    disliked: Seq<Seq<char>>,
) -> Seq<ItemModel> {
    items.filter(eligibility(liked, disliked))
}

/// Whether `category` occurs in `list`.
pub fn contains_category(list: &Vec<String>, category: &String) -> (found: bool)
    ensures
        found == list.deep_view().contains(category@),
{
    let mut i: usize = 0;
    while i < list.len()
        invariant
            i <= list.len(),
            forall|k: int| 0 <= k < i ==> list.deep_view()[k] != category@,
        decreases list.len() - i,
    {
        if list[i] == *category {
            assert(list.deep_view()[i as int] == category@);
            return true;
        }
        i += 1;
    }
    false
}

/// Whether any of `tags` is among `disliked`.
pub fn shares_category(tags: &Vec<String>, disliked: &Vec<String>) -> (hit: bool)
    ensures
        hit == disliked_ineligible(tags.deep_view(), disliked.deep_view()),
{
    let mut i: usize = 0;
    while i < tags.len()
        invariant
            i <= tags.len(),
            forall|k: int|
                0 <= k < i ==> !disliked.deep_view().contains(#[trigger] tags.deep_view()[k]),
        decreases tags.len() - i,
    {
        if contains_category(disliked, &tags[i]) {
            assert(disliked.deep_view().contains(tags.deep_view()[i as int]));
            return true;
        }
        i += 1;
    }
    false
}

/// Whether `item` may be offered under the given preferences.
pub fn is_eligible(
    item: &ResterauntItem,
    liked_category: &String,
    disliked_categories: &Vec<String>,
) -> (ok: bool)
    ensures
        ok == eligible(item@, liked_category@, disliked_categories.deep_view()),
{
    match item.categories() {
        Some(tags) => {
            let liked = liked_category.as_str().is_empty() || contains_category(
                tags,
                liked_category,
            );
            liked && !shares_category(tags, disliked_categories)
        },
        None => {
            assert(!item@.categories().contains(liked_category@));
            liked_category.as_str().is_empty()
        },
    }
}

/// The restaurants of `catalog` that may be offered: those whose tags
/// include `liked_category` (every one, while it is empty) and share nothing
/// with `disliked_categories`. Catalog order is kept.
pub fn filter<'a>(
    catalog: &'a GetAllRestaurantsResponse,
    liked_category: &String,
    disliked_categories: &Vec<String>,
) -> (pool: Vec<&'a ResterauntItem>)
    ensures
        pool.deep_view() == eligible_items(
            catalog_items(catalog@),
            liked_category@,
            disliked_categories.deep_view(),
        ),
{
    let mut pool: Vec<&'a ResterauntItem> = Vec::new();
    let ghost wanted = eligibility(liked_category@, disliked_categories.deep_view());
    match catalog.items() {
        Some(items) => {
            let ghost all = items.deep_view();
            let mut i: usize = 0;
            assert(all.take(0) =~= Seq::<ItemModel>::empty());
            assert(pool.deep_view() =~= all.take(0).filter(wanted)) by {
                reveal(Seq::filter);
            }
            while i < items.len()
                invariant
                    i <= items.len(),
                    all == items.deep_view(),
                    all == catalog_items(catalog@),
                    wanted == eligibility(liked_category@, disliked_categories.deep_view()),
                    pool.deep_view() == all.take(i as int).filter(wanted),
                decreases items.len() - i,
            {
                let item = &items[i];
                let ghost before = pool.deep_view();
                proof {
                    assert(all.take(i + 1) =~= all.take(i as int).push(item@));
                    all.take(i as int).lemma_filter_push(item@, wanted);
                }
                if is_eligible(item, liked_category, disliked_categories) {
                    pool.push(item);
                    assert(pool.deep_view() =~= before.push(item@));
                }
                i += 1;
            }
            assert(all.take(i as int) =~= all);
        },
        None => {
            assert(pool.deep_view() =~= Seq::<ItemModel>::empty().filter(wanted)) by {
                reveal(Seq::filter);
            }
        },
    }
    pool
}

/// The filter is sound and complete: an item is in the pool exactly when
/// it is in the catalog and satisfies the liked/disliked predicate.
pub proof fn lemma_filter_exact(
    items: Seq<ItemModel>,
    liked: Seq<char>,
    disliked: Seq<Seq<char>>,
    item: ItemModel,
)
    ensures
        eligible_items(items, liked, disliked).contains(item) <==> items.contains(item)
            && eligible(item, liked, disliked),
{
    let wanted = eligibility(liked, disliked);
    let pool = items.filter(wanted);
    if pool.contains(item) {
        let i = choose|i: int| 0 <= i < pool.len() && pool[i] == item;
        items.lemma_filter_pred(wanted, i);
        items.lemma_filter_contains_rev(wanted, item);
    }
    if items.contains(item) && eligible(item, liked, disliked) {
        let j = choose|j: int| 0 <= j < items.len() && items[j] == item;
        items.lemma_filter_contains(wanted, j);
    }
}

/// Filtering is repeatable: two runs on the same catalog and preferences
/// give the same pool, and so the same set of items.
pub proof fn lemma_filter_repeatable(
    first: Seq<ItemModel>,
    second: Seq<ItemModel>,
    items: Seq<ItemModel>,
    liked: Seq<char>,
    disliked: Seq<Seq<char>>,
)
    requires
        first == eligible_items(items, liked, disliked),
        second == eligible_items(items, liked, disliked),
    ensures
        first == second,
        first.to_set() == second.to_set(),
{
}

/// Filtering is idempotent: filtering a pool again under the same
/// preferences changes nothing.
pub proof fn lemma_filter_idempotent(
    items: Seq<ItemModel>,
    liked: Seq<char>,
    disliked: Seq<Seq<char>>,
)
    ensures
        eligible_items(eligible_items(items, liked, disliked), liked, disliked) == eligible_items(
            items,
            liked,
            disliked,
        ),
    decreases items.len(),
{
    let wanted = eligibility(liked, disliked);
    reveal(Seq::filter);
    if items.len() > 0 {
        let rest = items.drop_last();
        lemma_filter_idempotent(rest, liked, disliked);
        if wanted(items.last()) {
            rest.filter(wanted).lemma_filter_push(items.last(), wanted);
        }
    }
}

/// The order of the disliked categories, and how often each occurs, is
/// irrelevant: two collections with the same members filter alike.
pub proof fn lemma_filter_disliked_as_set(
    items: Seq<ItemModel>,
    liked: Seq<char>,
    disliked: Seq<Seq<char>>,
    other: Seq<Seq<char>>,
)
    requires
        disliked.to_set() == other.to_set(),
    ensures
        eligible_items(items, liked, disliked) == eligible_items(items, liked, other),
    decreases items.len(),
{
    reveal(Seq::filter);
    if items.len() > 0 {
        lemma_filter_disliked_as_set(items.drop_last(), liked, disliked, other);
        let tags = items.last().categories();
        assert forall|i: int| 0 <= i < tags.len() implies (disliked.contains(#[trigger] tags[i])
            <==> other.contains(tags[i])) by {
            assert(disliked.to_set().contains(tags[i]) <==> other.to_set().contains(tags[i]));
        }
    }
}

} // verus!
