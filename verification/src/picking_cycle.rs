//! The picking cycle: the state machine of an interactive session.
//!
//! A session offers a random eligible restaurant and asks whether to eat
//! there. A yes ends the session. A no is followed by a question about one
//! of the restaurant's categories, whose answer sharpens the preferences,
//! and the next offer. The cycle itself neither fetches nor displays: each
//! step takes what happened as a [`CycleEvent`] and answers with the
//! [`CycleAction`] to perform next.

use crate::cache::{CacheModel, CatalogCache, FETCH_ATTEMPTS};
use crate::catalog::{
    catalog_items, GetAllRestaurantsResponse, ItemModel, ResterauntItem, SectionModel,
};
use crate::error::{PickError, PickErrorModel};
use crate::filter::{eligible, eligible_items, lemma_filter_exact};
use crate::preferences::{PreferenceModel, PreferenceState};
use crate::random::choose_category;
use crate::selector::{drawn, lemma_drawn_is_member, select, select_at};
use crate::text::{
    category_choices, category_choices_text, category_question, category_question_text,
    empty_pool_notice, empty_pool_notice_text, end_message, end_message_text, restaurant_choices,
    restaurant_choices_text, restaurant_question, restaurant_question_text, CHOICE_YES,
};
use vstd::arithmetic::div_mod::{lemma_mod_bound, lemma_small_mod};
use vstd::prelude::*;

verus! {

/// Latitude of the place every session searches around, in micro-degrees.
pub const SESSION_LATITUDE: i64 = 32_079_612;

/// Longitude of the place every session searches around, in micro-degrees.
pub const SESSION_LONGITUDE: i64 = 34_811_399;

/// The place a session searches around, in micro-degrees.
#[derive(Clone, Copy, Debug, PartialEq, Eq, Structural)]
pub struct SessionAddress {
    pub latitude: i64,
    pub longitude: i64,
}

/// The place every session searches around.
pub open spec fn session_address() -> SessionAddress {
    SessionAddress { latitude: SESSION_LATITUDE, longitude: SESSION_LONGITUDE }
}

/// Model of a [`CyclePhase`].
pub enum PhaseModel {
    Selecting { offered: Option<ItemModel> },
    CategoryProbe { rejected: ItemModel, category: Seq<char> },
    Done { accepted: ItemModel },
}

/// Model of a [`CycleEvent`].
pub enum EventModel {
    Resume,
    CatalogFetched(Seq<SectionModel>),
    FetchFailed(Seq<char>),
    Chosen(nat),
}

/// Model of a [`CycleAction`].
pub enum ActionModel {
    FetchCatalog { address: SessionAddress, retry: bool },
    AskRestaurant { question: Seq<char>, restaurant: ItemModel, choices: Seq<Seq<char>> },
    AskCategory { question: Seq<char>, restaurant: ItemModel, choices: Seq<Seq<char>> },
    EmptyCandidatePool { notice: Seq<char> },
    Finish { message: Seq<char> },
    Abort { error: PickErrorModel },
}

/// Model of a [`PickingCycle`].
pub struct CycleModel {
    pub address: SessionAddress,
    pub preferences: PreferenceModel,
    pub restaurants: CacheModel,
    pub phase: PhaseModel,
}

impl EventModel {
    /// The event reports how a fetch ended.
    pub open spec fn is_fetch_outcome(self) -> bool {
        self is CatalogFetched || self is FetchFailed
    }
}

impl CycleModel {
    /// A fresh session around `address`: selecting, nothing offered yet, no
    /// preferences, no catalog.
    pub open spec fn fresh(address: SessionAddress) -> CycleModel {
        CycleModel {
            address,
            preferences: PreferenceModel::empty(),
            restaurants: CacheModel::fresh(),
            phase: PhaseModel::Selecting { offered: None },
        }
    }

    /// The restaurants that may be offered now; none while there is no
    /// catalog.
    pub open spec fn pool(self) -> Seq<ItemModel> {
        match self.restaurants {
            CacheModel::Fetched { catalog } => eligible_items(
                catalog_items(catalog),
                self.preferences.liked,
                self.preferences.disliked,
            ),
            _ => Seq::empty(),
        }
    }

    /// The question about the restaurant on offer.
    pub open spec fn ask_restaurant(item: ItemModel) -> ActionModel {
        ActionModel::AskRestaurant {
            question: restaurant_question_text(),
            restaurant: item,
            choices: restaurant_choices_text(),
        }
    }

    /// The question about a category of the rejected restaurant.
    pub open spec fn ask_category(item: ItemModel, category: Seq<char>) -> ActionModel {
        ActionModel::AskCategory {
            question: category_question_text(category),
            restaurant: item,
            choices: category_choices_text(),
        }
    }

    /// The end of the session on the accepted restaurant.
    pub open spec fn finish(item: ItemModel) -> ActionModel {
        ActionModel::Finish { message: end_message_text(item.title, item.venue.slug) }
    }

    /// The next offer of a session with nothing on offer. Without a catalog
    /// the session asks for one, or gives up once the cache has. With one it
    /// offers the eligible restaurant that `draw` stands for; if none is
    /// eligible it forgets the preferences and says so.
    pub open spec fn offer(self, draw: int) -> (CycleModel, ActionModel) {
        match self.restaurants {
            CacheModel::Unfetched { failures } => (
                self,
                ActionModel::FetchCatalog { address: self.address, retry: failures > 0 },
            ),
            CacheModel::Failed { reason } => (
                self,
                ActionModel::Abort { error: PickErrorModel::FetchError(reason) },
            ),
            CacheModel::Fetched { .. } => match drawn(self.pool(), draw) {
                Some(item) => (
                    CycleModel { phase: PhaseModel::Selecting { offered: Some(item) }, ..self },
                    Self::ask_restaurant(item),
                ),
                None => (
                    CycleModel { preferences: PreferenceModel::empty(), ..self },
                    ActionModel::EmptyCandidatePool { notice: empty_pool_notice_text() },
                ),
            },
        }
    }

    /// The session with nothing on offer.
    pub open spec fn selecting(self) -> CycleModel {
        CycleModel { phase: PhaseModel::Selecting { offered: None }, ..self }
    }

    /// One step of the session: the state after `event`, and the action to
    /// perform next. Where the step has a choice (which restaurant to
    /// offer, which category to ask about) `draw` decides it.
    ///
    /// An event that answers nothing the session asked leaves the state as
    /// it is, and the pending question is asked again.
    pub open spec fn step(self, event: EventModel, draw: int) -> (CycleModel, ActionModel) {
        match self.phase {
            PhaseModel::Done { accepted } => (self, Self::finish(accepted)),
            PhaseModel::CategoryProbe { rejected, category } => match event {
                EventModel::Chosen(choice) => CycleModel {
                    preferences: self.preferences.answered(category, choice),
                    ..self
                }.selecting().offer(draw),
                _ => (self, Self::ask_category(rejected, category)),
            },
            PhaseModel::Selecting { offered: Some(item) } => match event {
                EventModel::Chosen(choice) => if choice == CHOICE_YES {
                    (
                        CycleModel { phase: PhaseModel::Done { accepted: item }, ..self },
                        Self::finish(item),
                    )
                } else {
                    match drawn(item.categories(), draw) {
                        Some(category) => (
                            CycleModel {
                                phase: PhaseModel::CategoryProbe { rejected: item, category },
                                ..self
                            },
                            Self::ask_category(item, category),
                        ),
                        None => self.selecting().offer(draw),
                    }
                },
                _ => (self, Self::ask_restaurant(item)),
            },
            PhaseModel::Selecting { offered: None } => match event {
                EventModel::CatalogFetched(catalog) => CycleModel {
                    restaurants: self.restaurants.delivered(catalog),
                    ..self
                }.offer(draw),
                EventModel::FetchFailed(reason) => CycleModel {
                    restaurants: self.restaurants.failed(reason),
                    ..self
                }.offer(draw),
                _ => self.offer(draw),
            },
        }
    }

    /// How often a session asks for a fetch over a script of events, each
    /// with the draw of its step, oldest first.
    pub open spec fn fetch_requests(self, script: Seq<(EventModel, int)>) -> nat
        decreases script.len(),
    {
        if script.len() == 0 {
            0
        } else {
            let (next, action) = self.step(script.first().0, script.first().1);
            let asked: nat = if action is FetchCatalog {
                1
            } else {
                0
            };
            asked + next.fetch_requests(script.drop_first())
        }
    }

    /// The script is one of a caller who fetches when asked and only then:
    /// the outcome of a fetch is reported right after the session asked for
    /// it, and at no other time. `awaited` says whether the session has
    /// just asked.
    pub open spec fn answers_fetches(self, awaited: bool, script: Seq<(EventModel, int)>) -> bool
        decreases script.len(),
    {
        script.len() == 0 || {
            let (next, action) = self.step(script.first().0, script.first().1);
            &&& script.first().0.is_fetch_outcome() == awaited
            &&& next.answers_fetches(action is FetchCatalog, script.drop_first())
        }
    }

    /// The fetches that a session may still ask for: what its cache has
    /// left, less the one that is under way.
    pub open spec fn fetch_budget(self, awaited: bool) -> int {
        if self.restaurants is Unfetched && awaited {
            self.restaurants.attempts_left() - 1
        } else {
            self.restaurants.attempts_left() as int
        }
    }

    /// What holds of every session that began fresh: whatever is on offer,
    /// asked about or accepted is a restaurant that may be offered under the
    /// preferences as they stand, and the category asked about is one of
    /// its tags.
    pub open spec fn consistent(self) -> bool {
        match self.phase {
            PhaseModel::Selecting { offered: None } => true,
            PhaseModel::Selecting { offered: Some(item) } => self.pool().contains(item),
            PhaseModel::CategoryProbe { rejected, category } => self.pool().contains(rejected)
                && rejected.categories().contains(category),
            PhaseModel::Done { accepted } => self.pool().contains(accepted),
        }
    }
}

/// Where a session stands.
#[derive(Debug, PartialEq, Eq)]
pub enum CyclePhase {
    /// A restaurant is to be accepted or rejected; `offered` is the one on
    /// offer, once one was drawn.
    Selecting { offered: Option<ResterauntItem> },
    /// The restaurant was rejected and `category`, one of its tags, is
    /// asked about.
    CategoryProbe { rejected: ResterauntItem, category: String },
    /// The restaurant was accepted; the session is over.
    Done { accepted: ResterauntItem },
}

/// What happened since the last step.
#[derive(Debug, PartialEq, Eq)]
pub enum CycleEvent {
    /// Nothing to report: the session starts, or a notice was shown.
    Resume,
    /// The fetch that the session asked for delivered the catalog.
    CatalogFetched(GetAllRestaurantsResponse),
    /// The fetch that the session asked for failed; the text says why.
    FetchFailed(String),
    /// The user picked the answer with this index, counted from zero.
    Chosen(usize),
}

/// What the session wants done next.
#[derive(Debug, PartialEq, Eq)]
pub enum CycleAction {
    /// Fetch the catalog around `address` and report the outcome. `retry`
    /// says that an earlier fetch failed, so this one should be held back a
    /// little.
    FetchCatalog { address: SessionAddress, retry: bool },
    /// Show `restaurant`, ask `question` and report the chosen answer.
    AskRestaurant { question: String, restaurant: ResterauntItem, choices: Vec<String> },
    /// Keep showing `restaurant`, ask `question` and report the chosen
    /// answer.
    AskCategory { question: String, restaurant: ResterauntItem, choices: Vec<String> },
    /// No restaurant was eligible and the preferences were reset: show
    /// `notice`, then resume.
    EmptyCandidatePool { notice: String },
    /// The session is over: show `message`.
    Finish { message: String },
    /// The session cannot go on.
    Abort { error: PickError },
}

impl View for CyclePhase {
    type V = PhaseModel;

    open spec fn view(&self) -> PhaseModel {
        match self {
            CyclePhase::Selecting { offered: Some(item) } => PhaseModel::Selecting {
                offered: Some(item@),
            },
            CyclePhase::Selecting { offered: None } => PhaseModel::Selecting { offered: None },
            CyclePhase::CategoryProbe { rejected, category } => PhaseModel::CategoryProbe {
                rejected: rejected@,
                category: category@,
            },
            CyclePhase::Done { accepted } => PhaseModel::Done { accepted: accepted@ },
        }
    }
}

impl View for CycleEvent {
    type V = EventModel;

    open spec fn view(&self) -> EventModel {
        match self {
            CycleEvent::Resume => EventModel::Resume,
            CycleEvent::CatalogFetched(catalog) => EventModel::CatalogFetched(catalog@),
            CycleEvent::FetchFailed(reason) => EventModel::FetchFailed(reason@),
            CycleEvent::Chosen(choice) => EventModel::Chosen(*choice as nat),
        }
    }
}

impl View for CycleAction {
    type V = ActionModel;

    open spec fn view(&self) -> ActionModel {
        match self {
            CycleAction::FetchCatalog { address, retry } => ActionModel::FetchCatalog {
                address: *address,
                retry: *retry,
            },
            CycleAction::AskRestaurant { question, restaurant, choices } => {
                ActionModel::AskRestaurant {
                    question: question@,
                    restaurant: restaurant@,
                    choices: choices.deep_view(),
                }
            },
            CycleAction::AskCategory { question, restaurant, choices } => {
                ActionModel::AskCategory {
                    question: question@,
                    restaurant: restaurant@,
                    choices: choices.deep_view(),
                }
            },
            CycleAction::EmptyCandidatePool { notice } => ActionModel::EmptyCandidatePool {
                notice: notice@,
            },
            CycleAction::Finish { message } => ActionModel::Finish { message: message@ },
            CycleAction::Abort { error } => ActionModel::Abort { error: error@ },
        }
    }
}

impl Clone for CyclePhase {
    fn clone(&self) -> (res: Self)
        ensures
            res@ == self@,
    {
        match self {
            CyclePhase::Selecting { offered: Some(item) } => CyclePhase::Selecting {
                offered: Some(item.clone()),
            },
            CyclePhase::Selecting { offered: None } => CyclePhase::Selecting { offered: None },
            CyclePhase::CategoryProbe { rejected, category } => CyclePhase::CategoryProbe {
                rejected: rejected.clone(),
                category: category.clone(),
            },
            CyclePhase::Done { accepted } => CyclePhase::Done { accepted: accepted.clone() },
        }
    }
}

impl Clone for CycleEvent {
    fn clone(&self) -> (res: Self)
        ensures
            res@ == self@,
    {
        match self {
            CycleEvent::Resume => CycleEvent::Resume,
            CycleEvent::CatalogFetched(catalog) => CycleEvent::CatalogFetched(catalog.clone()),
            CycleEvent::FetchFailed(reason) => CycleEvent::FetchFailed(reason.clone()),
            CycleEvent::Chosen(choice) => CycleEvent::Chosen(*choice),
        }
    }
}

impl Clone for CycleAction {
    fn clone(&self) -> (res: Self)
        ensures
            res@ == self@,
    {
        match self {
            CycleAction::FetchCatalog { address, retry } => CycleAction::FetchCatalog {
                address: *address,
                retry: *retry,
            },
            CycleAction::AskRestaurant { question, restaurant, choices } => {
                let copied = choices.clone();
                assert(copied.deep_view() =~= choices.deep_view());
                CycleAction::AskRestaurant {
                    question: question.clone(),
                    restaurant: restaurant.clone(),
                    choices: copied,
                }
            },
            CycleAction::AskCategory { question, restaurant, choices } => {
                let copied = choices.clone();
                assert(copied.deep_view() =~= choices.deep_view());
                CycleAction::AskCategory {
                    question: question.clone(),
                    restaurant: restaurant.clone(),
                    choices: copied,
                }
            },
            CycleAction::EmptyCandidatePool { notice } => CycleAction::EmptyCandidatePool {
                notice: notice.clone(),
            },
            CycleAction::Finish { message } => CycleAction::Finish { message: message.clone() },
            CycleAction::Abort { error } => CycleAction::Abort { error: error.clone() },
        }
    }
}

/// Where the draws of a step come from.
enum DrawSource {
    /// From the random generator.
    Random,
    /// From the caller.
    Fixed(usize),
}

impl DrawSource {
    /// The draw that the source is bound to give, if it is bound.
    spec fn allows(self, draw: int) -> bool {
        match self {
            DrawSource::Random => true,
            DrawSource::Fixed(fixed) => draw == fixed,
        }
    }
}

/// One interactive session, from its start to the accepted restaurant.
#[derive(Debug, PartialEq, Eq)]
pub struct PickingCycle {
    address: SessionAddress,
    preferences: PreferenceState,
    restaurants: CatalogCache,
    phase: CyclePhase,
}

impl View for PickingCycle {
    type V = CycleModel;

    closed spec fn view(&self) -> CycleModel {
        CycleModel {
            address: self.address,
            preferences: self.preferences@,
            restaurants: self.restaurants@,
            phase: self.phase@,
        }
    }
}

impl Clone for PickingCycle {
    fn clone(&self) -> (res: Self)
        ensures
            res@ == self@,
    {
        PickingCycle {
            address: self.address,
            preferences: self.preferences.clone(),
            restaurants: self.restaurants.clone(),
            phase: self.phase.clone(),
        }
    }
}

impl PickingCycle {
    /// The place every session searches around.
    pub fn get_addr() -> (address: SessionAddress)
        ensures
            address == session_address(),
    {
        SessionAddress { latitude: SESSION_LATITUDE, longitude: SESSION_LONGITUDE }
    }

    /// A fresh session: selecting, without preferences, the catalog not
    /// fetched yet.
    pub fn new() -> (cycle: Self)
        ensures
            cycle@ == CycleModel::fresh(session_address()),
            cycle@.consistent(),
    {
        PickingCycle {
            address: Self::get_addr(),
            preferences: PreferenceState::new(),
            restaurants: CatalogCache::new(),
            phase: CyclePhase::Selecting { offered: None },
        }
    }

    /// The place this session searches around.
    pub fn address(&self) -> (address: SessionAddress)
        ensures
            address == self@.address,
    {
        self.address
    }

    /// The preferences gathered so far.
    pub fn preferences(&self) -> (preferences: &PreferenceState)
        ensures
            preferences@ == self@.preferences,
    {
        &self.preferences
    }

    /// Where the session stands.
    pub fn phase(&self) -> (phase: &CyclePhase)
        ensures
            phase@ == self@.phase,
    {
        &self.phase
    }

    /// The catalog of the session, once it was fetched.
    pub fn get_restaurants(&self) -> (catalog: Option<&GetAllRestaurantsResponse>)
        ensures
            match self@.restaurants {
                CacheModel::Fetched { catalog: cached } => catalog matches Some(found)
                    && found@ == cached,
                _ => catalog is None,
            },
    {
        self.restaurants.get_catalog()
    }

    /// Whether the session is over.
    pub fn is_done(&self) -> (done: bool)
        ensures
            done == (self@.phase is Done),
    {
        match &self.phase {
            CyclePhase::Done { .. } => true,
            _ => false,
        }
    }

    /// Draws one eligible restaurant of `catalog`, or fails with
    /// `EmptyCandidatePool` when none is eligible.
    fn get_random_restaurant_pool<'a>(
        preferences: &PreferenceState,
        catalog: &'a GetAllRestaurantsResponse,
        source: &DrawSource,
    ) -> (out: (Result<&'a ResterauntItem, PickError>, Ghost<int>))
        ensures
            source.allows(out.1@),
            match drawn(
                eligible_items(
                    catalog_items(catalog@),
                    preferences@.liked,
                    preferences@.disliked,
                ),
                out.1@,
            ) {
                Some(item) => out.0 matches Ok(picked) && picked@ == item,
                None => out.0 matches Err(error) && error == PickError::EmptyCandidatePool,
            },
    {
        let pool = preferences.candidates(catalog);
        match source {
            DrawSource::Random => {
                let picked = select(&pool);
                let ghost draw: int = if pool.len() == 0 {
                    0
                } else {
                    choose|draw: int|
                        0 <= draw < pool.len() && picked == Ok::<&ResterauntItem, PickError>(
                            #[trigger] pool[draw],
                        )
                };
                proof {
                    if pool.len() > 0 {
                        lemma_small_mod(draw as nat, pool.len() as nat);
                    }
                }
                (picked, Ghost(draw))
            },
            DrawSource::Fixed(fixed) => {
                proof {
                    if pool.len() > 0 {
                        lemma_mod_bound(*fixed as int, pool.len() as int);
                    }
                }
                (select_at(&pool, *fixed), Ghost(*fixed as int))
            },
        }
    }

    /// Draws one category tag of `restaurant`, if it has any.
    fn pick_category(restaurant: &ResterauntItem, source: &DrawSource) -> (out: (
        Option<String>,
        Ghost<int>,
    ))
        ensures
            source.allows(out.1@),
            match drawn(restaurant@.categories(), out.1@) {
                Some(category) => out.0 matches Some(picked) && picked@ == category,
                None => out.0 is None,
            },
    {
        let ghost fixed: int = match source {
            DrawSource::Random => 0,
            DrawSource::Fixed(fixed) => *fixed as int,
        };
        match restaurant.categories() {
            Some(tags) => match source {
                DrawSource::Random => match choose_category(tags) {
                    Some(tag) => {
                        let ghost draw = choose|i: int| 0 <= i < tags.len() && tags[i] == *tag;
                        proof {
                            lemma_small_mod(draw as nat, tags.len() as nat);
                        }
                        (Some(tag.clone()), Ghost(draw))
                    },
                    None => (None, Ghost(fixed)),
                },
                DrawSource::Fixed(draw) => {
                    if tags.len() == 0 {
                        (None, Ghost(fixed))
                    } else {
                        proof {
                            lemma_mod_bound(*draw as int, tags.len() as int);
                        }
                        (Some(tags[*draw % tags.len()].clone()), Ghost(fixed))
                    }
                },
            },
            None => (None, Ghost(fixed)),
        }
    }

    /// Makes the next offer of a session with nothing on offer.
    fn offer(&mut self, source: &DrawSource) -> (out: (CycleAction, Ghost<int>))
        ensures
            source.allows(out.1@),
            (final(self)@, out.0@) == old(self)@.offer(out.1@),
    {
        let ghost fixed: int = match source {
            DrawSource::Random => 0,
            DrawSource::Fixed(fixed) => *fixed as int,
        };
        match &self.restaurants {
            CatalogCache::Unfetched { failures } => (
                CycleAction::FetchCatalog { address: self.address, retry: *failures > 0 },
                Ghost(fixed),
            ),
            CatalogCache::Failed(reason) => (
                CycleAction::Abort { error: PickError::FetchError(reason.clone()) },
                Ghost(fixed),
            ),
            CatalogCache::Fetched(catalog) => {
                let (picked, draw) = Self::get_random_restaurant_pool(
                    &self.preferences,
                    catalog,
                    source,
                );
                match picked {
                    Ok(item) => {
                        let action = CycleAction::AskRestaurant {
                            question: restaurant_question(),
                            restaurant: item.clone(),
                            choices: restaurant_choices(),
                        };
                        self.phase = CyclePhase::Selecting { offered: Some(item.clone()) };
                        (action, draw)
                    },
                    Err(_) => {
                        self.preferences.reset();
                        (CycleAction::EmptyCandidatePool { notice: empty_pool_notice() }, draw)
                    },
                }
            },
        }
    }

    /// One step, with its draws from `source`.
    fn advance(&mut self, event: CycleEvent, source: &DrawSource) -> (out: (
        CycleAction,
        Ghost<int>,
    ))
        ensures
            source.allows(out.1@),
            (final(self)@, out.0@) == old(self)@.step(event@, out.1@),
    {
        let ghost fixed: int = match source {
            DrawSource::Random => 0,
            DrawSource::Fixed(fixed) => *fixed as int,
        };
        match &self.phase {
            CyclePhase::Done { accepted } => (
                CycleAction::Finish {
                    message: end_message(&accepted.title, &accepted.venue.slug),
                },
                Ghost(fixed),
            ),
            CyclePhase::CategoryProbe { rejected, category } => match event {
                CycleEvent::Chosen(choice) => {
                    let category = category.clone();
                    self.preferences.answer(category, choice);
                    self.phase = CyclePhase::Selecting { offered: None };
                    self.offer(source)
                },
                _ => (
                    CycleAction::AskCategory {
                        question: category_question(category),
                        restaurant: rejected.clone(),
                        choices: category_choices(),
                    },
                    Ghost(fixed),
                ),
            },
            CyclePhase::Selecting { offered: Some(item) } => match event {
                CycleEvent::Chosen(choice) => {
                    if choice == CHOICE_YES {
                        let accepted = item.clone();
                        let message = end_message(&accepted.title, &accepted.venue.slug);
                        self.phase = CyclePhase::Done { accepted };
                        (CycleAction::Finish { message }, Ghost(fixed))
                    } else {
                        let (picked, draw) = Self::pick_category(item, source);
                        match picked {
                            Some(category) => {
                                let rejected = item.clone();
                                let action = CycleAction::AskCategory {
                                    question: category_question(&category),
                                    restaurant: rejected.clone(),
                                    choices: category_choices(),
                                };
                                self.phase = CyclePhase::CategoryProbe { rejected, category };
                                (action, draw)
                            },
                            None => {
                                self.phase = CyclePhase::Selecting { offered: None };
                                self.offer(source)
                            },
                        }
                    }
                },
                _ => (
                    CycleAction::AskRestaurant {
                        question: restaurant_question(),
                        restaurant: item.clone(),
                        choices: restaurant_choices(),
                    },
                    Ghost(fixed),
                ),
            },
            CyclePhase::Selecting { offered: None } => {
                match event {
                    CycleEvent::CatalogFetched(catalog) => {
                        self.restaurants.store(catalog);
                    },
                    CycleEvent::FetchFailed(reason) => {
                        self.restaurants.fail(reason);
                    },
                    _ => {},
                }
                self.offer(source)
            },
        }
    }

    /// Starts or resumes the session: the step on [`CycleEvent::Resume`].
    pub fn start(&mut self) -> (action: CycleAction)
        ensures
            exists|draw: int|
                (final(self)@, action@) == #[trigger] old(self)@.step(EventModel::Resume, draw),
            old(self)@.consistent() ==> final(self)@.consistent(),
    {
        self.step(CycleEvent::Resume)
    }

    /// One step of the session, with a random draw wherever the step has a
    /// choice: takes in `event` and returns what to do next.
    ///
    /// The step is [`CycleModel::step`] for some draw. Which restaurant is
    /// offered and which category is asked about is up to the random
    /// generator; everything else is fixed by the state and the event.
    pub fn step(&mut self, event: CycleEvent) -> (action: CycleAction)
        ensures
            exists|draw: int|
                (final(self)@, action@) == #[trigger] old(self)@.step(event@, draw),
            old(self)@.consistent() ==> final(self)@.consistent(),
    {
        let (action, draw) = self.advance(event, &DrawSource::Random);
        proof {
            if old(self)@.consistent() {
                lemma_step_consistent(old(self)@, event@, draw@);
            }
        }
        action
    }

    /// One step of the session, with `draw` in place of the random draw:
    /// takes in `event` and returns what to do next.
    pub fn step_with(&mut self, event: CycleEvent, draw: usize) -> (action: CycleAction)
        ensures
            (final(self)@, action@) == old(self)@.step(event@, draw as int),
            old(self)@.consistent() ==> final(self)@.consistent(),
    {
        let (action, _) = self.advance(event, &DrawSource::Fixed(draw));
        proof {
            if old(self)@.consistent() {
                lemma_step_consistent(old(self)@, event@, draw as int);
            }
        }
        action
    }
}

/// Every step keeps a session consistent.
pub proof fn lemma_step_consistent(cycle: CycleModel, event: EventModel, draw: int)
    requires
        cycle.consistent(),
    ensures
        cycle.step(event, draw).0.consistent(),
{
    assert forall|before: CycleModel|
        before.phase == (PhaseModel::Selecting { offered: None }) implies #[trigger] before.offer(
            draw,
        ).0.consistent() by {
        lemma_drawn_is_member(before.pool(), draw);
    }
    match cycle.phase {
        PhaseModel::Selecting { offered: Some(item) } => {
            lemma_drawn_is_member(item.categories(), draw);
        },
        _ => {},
    }
}

/// What may be offered is a restaurant of the cached catalog that
/// satisfies the liked/disliked predicate under the current preferences.
pub proof fn lemma_pool_is_eligible(cycle: CycleModel, item: ItemModel)
    requires
        cycle.pool().contains(item),
    ensures
        cycle.restaurants matches CacheModel::Fetched { catalog } && catalog_items(
            catalog,
        ).contains(item),
        eligible(item, cycle.preferences.liked, cycle.preferences.disliked),
{
    match cycle.restaurants {
        CacheModel::Fetched { catalog } => {
            lemma_filter_exact(
                catalog_items(catalog),
                cycle.preferences.liked,
                cycle.preferences.disliked,
                item,
            );
        },
        _ => {},
    }
}

/// Once the catalog is cached, no step asks for a fetch again and no step
/// changes the cached catalog.
pub proof fn lemma_step_keeps_catalog(cycle: CycleModel, event: EventModel, draw: int)
    requires
        cycle.restaurants is Fetched,
    ensures
        cycle.step(event, draw).0.restaurants == cycle.restaurants,
        !(cycle.step(event, draw).1 is FetchCatalog),
{
}

/// A session that is done stays done: every further step leaves it as it
/// is and names the accepted restaurant again.
pub proof fn lemma_done_is_final(cycle: CycleModel, event: EventModel, draw: int)
    requires
        cycle.phase is Done,
    ensures
        cycle.step(event, draw) == (cycle, CycleModel::finish(cycle.phase->accepted)),
{
}

/// The preferences change only when a question about a category is
/// answered, or when they are reset because nothing was left to offer.
pub proof fn lemma_preferences_change_on_answers_only(
    cycle: CycleModel,
    event: EventModel,
    draw: int,
)
    ensures
        cycle.step(event, draw).0.preferences == cycle.preferences || (cycle.phase
            is CategoryProbe && event is Chosen) || (cycle.step(event, draw).1
            is EmptyCandidatePool && cycle.step(event, draw).0.preferences
            == PreferenceModel::empty()),
{
}

/// A step asks for a fetch only while the cache needs one, and never gives
/// up while it does.
pub proof fn lemma_fetch_only_when_needed(cycle: CycleModel, event: EventModel, draw: int)
    ensures
        cycle.step(event, draw).1 is FetchCatalog ==> cycle.step(
            event,
            draw,
        ).0.restaurants.needs_fetch() && cycle.restaurants.needs_fetch(),
{
}

/// A consistent session asks for no more fetches than its budget allows,
/// and for none beyond the first unless a fetch fails.
pub proof fn lemma_fetch_requests_bounded(
    cycle: CycleModel,
    awaited: bool,
    script: Seq<(EventModel, int)>,
)
    requires
        cycle.consistent(),
        cycle.answers_fetches(awaited, script),
        awaited ==> cycle.restaurants is Unfetched,
    ensures
        cycle.fetch_requests(script) <= cycle.fetch_budget(awaited),
        (forall|i: int| 0 <= i < script.len() ==> !(#[trigger] script[i].0 is FetchFailed))
            ==> cycle.fetch_requests(script) <= (if cycle.restaurants is Unfetched && !awaited {
            1nat
        } else {
            0nat
        }),
    decreases script.len(),
{
    if script.len() > 0 {
        let event = script.first().0;
        let draw = script.first().1;
        let rest = script.drop_first();
        let (next, action) = cycle.step(event, draw);
        lemma_step_consistent(cycle, event, draw);
        lemma_fetch_only_when_needed(cycle, event, draw);
        if cycle.restaurants is Fetched {
            lemma_step_keeps_catalog(cycle, event, draw);
        }
        lemma_fetch_requests_bounded(next, action is FetchCatalog, rest);
        if forall|i: int| 0 <= i < script.len() ==> !(#[trigger] script[i].0 is FetchFailed) {
            assert(!(script[0].0 is FetchFailed));
            assert forall|i: int| 0 <= i < rest.len() implies !(#[trigger] rest[i].0
                is FetchFailed) by {
                assert(rest[i] == script[i + 1]);
            }
        }
    }
}

/// However long a session runs and however often it looks for its catalog,
/// it asks for a fetch at most once, unless that fetch fails; the one retry
/// included, at most [`FETCH_ATTEMPTS`] times. This holds of every caller
/// who fetches when asked and only then.
pub proof fn lemma_session_fetches_at_most_once(
    address: SessionAddress,
    script: Seq<(EventModel, int)>,
)
    requires
        CycleModel::fresh(address).answers_fetches(false, script),
    ensures
        CycleModel::fresh(address).fetch_requests(script) <= FETCH_ATTEMPTS,
        (forall|i: int| 0 <= i < script.len() ==> !(#[trigger] script[i].0 is FetchFailed))
            ==> CycleModel::fresh(address).fetch_requests(script) <= 1,
{
    lemma_fetch_requests_bounded(CycleModel::fresh(address), false, script);
}

} // verus!
