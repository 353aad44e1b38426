//! The preferences of a session: at most one liked category and any number
//! of disliked ones.

use crate::catalog::{catalog_items, GetAllRestaurantsResponse, ResterauntItem};
use crate::filter::{eligible, eligible_items, filter, is_eligible};
use crate::text::{CHOICE_NO, CHOICE_YES};
use vstd::prelude::*;

verus! {

/// Model of a [`PreferenceState`]. An empty `liked` means that no category
/// is liked yet. Of `disliked` only the members matter.
pub struct PreferenceModel {
    pub liked: Seq<char>,
    pub disliked: Seq<Seq<char>>,
}

impl PreferenceModel {
    /// No liked category, nothing disliked.
    pub open spec fn empty() -> PreferenceModel {
        PreferenceModel { liked: Seq::empty(), disliked: Seq::empty() }
    }

    /// The preferences after `category` became the liked one.
    pub open spec fn liking(self, category: Seq<char>) -> PreferenceModel {
        PreferenceModel { liked: category, ..self }
    }

    /// The preferences after `category` joined the disliked ones.
    pub open spec fn disliking(self, category: Seq<char>) -> PreferenceModel {
        PreferenceModel { disliked: self.disliked.push(category), ..self }
    }

    /// The preferences after the question about `category` was answered
    /// with the given choice: yes likes it, no dislikes it, anything else
    /// skips the question.
    pub open spec fn answered(self, category: Seq<char>, choice: nat) -> PreferenceModel {
        if choice == CHOICE_YES {
            self.liking(category)
        } else if choice == CHOICE_NO {
            self.disliking(category)
        } else {
            self
        }
    }
}

/// What the user made known so far about the categories.
#[derive(Debug, PartialEq, Eq)]
pub struct PreferenceState {
    pub liked_category: String,
    pub disliked_categories: Vec<String>,
}

impl View for PreferenceState {
    type V = PreferenceModel;

    open spec fn view(&self) -> PreferenceModel {
        PreferenceModel {
            liked: self.liked_category@,
            disliked: self.disliked_categories.deep_view(),
        }
    }
}

impl Clone for PreferenceState {
    fn clone(&self) -> (res: Self)
        ensures
            res@ == self@,
    {
        let disliked_categories = self.disliked_categories.clone();
        assert(disliked_categories.deep_view() =~= self.disliked_categories.deep_view());
        PreferenceState { liked_category: self.liked_category.clone(), disliked_categories }
    }
}

impl PreferenceState {
    /// The preferences of a fresh session: none.
    pub fn new() -> (preferences: Self)
        ensures
            preferences@ == PreferenceModel::empty(),
    {
        let preferences = PreferenceState {
            liked_category: String::new(),
            disliked_categories: Vec::new(),
        };
        assert(preferences.disliked_categories.deep_view() =~= Seq::<Seq<char>>::empty());
        preferences
    }

    /// Makes `category` the liked one, in place of any earlier one.
    pub fn like(&mut self, category: String)
        ensures
            final(self)@ == old(self)@.liking(category@),
    {
        self.liked_category = category;
    }

    /// Adds `category` to the disliked ones.
    pub fn dislike(&mut self, category: String)
        ensures
            final(self)@ == old(self)@.disliking(category@),
    {
        let ghost before = self.disliked_categories.deep_view();
        self.disliked_categories.push(category);
        assert(self.disliked_categories.deep_view() =~= before.push(category@));
    }

    /// Takes in the answer to the question about `category`: yes makes it
    /// the liked one, no adds it to the disliked ones, anything else leaves
    /// the preferences as they are.
    pub fn answer(&mut self, category: String, choice: usize)
        ensures
            final(self)@ == old(self)@.answered(category@, choice as nat),
    {
        if choice == CHOICE_YES {
            self.like(category);
        } else if choice == CHOICE_NO {
            self.dislike(category);
        }
    }

    /// Forgets every preference.
    pub fn reset(&mut self)
        ensures
            final(self)@ == PreferenceModel::empty(),
    {
        self.liked_category = String::new();
        self.disliked_categories = Vec::new();
        assert(self.disliked_categories.deep_view() =~= Seq::<Seq<char>>::empty());
    }

    /// Whether `item` may be offered under these preferences.
    pub fn admits(&self, item: &ResterauntItem) -> (ok: bool)
        ensures
            ok == eligible(item@, self@.liked, self@.disliked),
    {
        is_eligible(item, &self.liked_category, &self.disliked_categories)
    }

    /// The restaurants of `catalog` that may be offered under these
    /// preferences, in catalog order.
    pub fn candidates<'a>(&self, catalog: &'a GetAllRestaurantsResponse) -> (pool: Vec<
        &'a ResterauntItem,
    >)
        ensures
            pool.deep_view() == eligible_items(
                catalog_items(catalog@),
                self@.liked,
                self@.disliked,
            ),
    {
        filter(catalog, &self.liked_category, &self.disliked_categories)
    }
}

} // verus!
