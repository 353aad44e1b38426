//! The catalog cache: the catalog is fetched on first demand, kept for the
//! rest of the session and never fetched or changed again. A failed fetch is
//! tried once more before the failure is final.

use crate::catalog::{GetAllRestaurantsResponse, SectionModel};
use vstd::prelude::*;

verus! {

/// How many times the catalog may be fetched before a failure is final:
/// the first attempt and one retry.
pub const FETCH_ATTEMPTS: u8 = 2;

/// Model of a [`CatalogCache`].
pub enum CacheModel {
    /// Nothing is cached yet; `failures` fetches have failed so far.
    Unfetched { failures: nat },
    /// The catalog of the session.
    Fetched { catalog: Seq<SectionModel> },
    /// The catalog could not be had; the session cannot go on.
    Failed { reason: Seq<char> },
}

/// What can happen to a cache, seen from outside.
pub enum CacheEvent {
    /// The catalog is asked for.
    Lookup,
    /// A fetch came back with a catalog.
    Delivered(Seq<SectionModel>),
    /// A fetch came back with a failure.
    Failed(Seq<char>),
}

impl CacheModel {
    /// The cache of a fresh session.
    pub open spec fn fresh() -> CacheModel {
        CacheModel::Unfetched { failures: 0 }
    }

    /// The cache has no catalog and may still ask for one.
    pub open spec fn needs_fetch(self) -> bool {
        self is Unfetched
    }

    /// The cache after a fetch delivered `catalog`: an empty cache keeps it,
    /// any other cache stays as it is.
    pub open spec fn delivered(self, catalog: Seq<SectionModel>) -> CacheModel {
        match self {
            CacheModel::Unfetched { .. } => CacheModel::Fetched { catalog },
            _ => self,
        }
    }

    /// The cache after a fetch failed with `reason`: an empty cache counts
    /// the failure and gives up once every attempt is spent, any other cache
    /// stays as it is.
    pub open spec fn failed(self, reason: Seq<char>) -> CacheModel {
        match self {
            CacheModel::Unfetched { failures } => if failures + 1 >= FETCH_ATTEMPTS {
                CacheModel::Failed { reason }
            } else {
                CacheModel::Unfetched { failures: failures + 1 }
            },
            _ => self,
        }
    }

    /// The cache after one event.
    pub open spec fn after(self, event: CacheEvent) -> CacheModel {
        match event {
            CacheEvent::Lookup => self,
            CacheEvent::Delivered(catalog) => self.delivered(catalog),
            CacheEvent::Failed(reason) => self.failed(reason),
        }
    }

    /// The cache after a sequence of events, oldest first.
    pub open spec fn replay(self, events: Seq<CacheEvent>) -> CacheModel
        decreases events.len(),
    {
        if events.len() == 0 {
            self
        } else {
            self.after(events.first()).replay(events.drop_first())
        }
    }

    /// How many fetches the cache takes in over a sequence of events: the
    /// outcomes that arrive while it still needs a fetch. A session fetches
    /// only when its cache needs it, so this is how often the fetch function
    /// runs.
    pub open spec fn fetches(self, events: Seq<CacheEvent>) -> nat
        decreases events.len(),
    {
        if events.len() == 0 {
            0
        } else {
            let taken: nat = if self.needs_fetch() && !(events.first() is Lookup) {
                1
            } else {
                0
            };
            taken + self.after(events.first()).fetches(events.drop_first())
        }
    }

    /// The fetches that an empty cache can still take in.
    pub open spec fn attempts_left(self) -> nat {
        match self {
            CacheModel::Unfetched { failures } => if failures < FETCH_ATTEMPTS {
                (FETCH_ATTEMPTS - failures) as nat
            } else {
                1
            },
            _ => 0,
        }
    }
}

/// The catalog of a session: not fetched yet, fetched, or not to be had.
#[derive(Debug, PartialEq, Eq)]
pub enum CatalogCache {
    /// Nothing is cached yet; `failures` fetches have failed so far.
    Unfetched { failures: u8 },
    /// The catalog of the session.
    Fetched(GetAllRestaurantsResponse),
    /// The catalog could not be had; the text is the last failure's report.
    Failed(String),
}

impl View for CatalogCache {
    type V = CacheModel;

    open spec fn view(&self) -> CacheModel {
        match self {
            CatalogCache::Unfetched { failures } => CacheModel::Unfetched {
                failures: *failures as nat,
            },
            CatalogCache::Fetched(catalog) => CacheModel::Fetched { catalog: catalog@ },
            CatalogCache::Failed(reason) => CacheModel::Failed { reason: reason@ },
        }
    }
}

impl Clone for CatalogCache {
    fn clone(&self) -> (res: Self)
        ensures
            res@ == self@,
    {
        match self {
            CatalogCache::Unfetched { failures } => CatalogCache::Unfetched {
                failures: *failures,
            },
            CatalogCache::Fetched(catalog) => CatalogCache::Fetched(catalog.clone()),
            CatalogCache::Failed(reason) => CatalogCache::Failed(reason.clone()),
        }
    }
}

impl CatalogCache {
    /// The cache of a fresh session: empty, with every attempt left.
    pub fn new() -> (cache: Self)
        ensures
            cache@ == CacheModel::fresh(),
    {
        CatalogCache::Unfetched { failures: 0 }
    }

    /// The cached catalog, once there is one.
    pub fn get_catalog(&self) -> (catalog: Option<&GetAllRestaurantsResponse>)
        ensures
            match self@ {
                CacheModel::Fetched { catalog: cached } => catalog matches Some(found)
                    && found@ == cached,
                _ => catalog is None,
            },
    {
        match self {
            CatalogCache::Fetched(catalog) => Some(catalog),
            _ => None,
        }
    }

    /// Whether the catalog has to be fetched before it can be had.
    pub fn needs_fetch(&self) -> (needed: bool)
        ensures
            needed == self@.needs_fetch(),
    {
        match self {
            CatalogCache::Unfetched { .. } => true,
            _ => false,
        }
    }

    /// Whether the next fetch is a retry after a failed one.
    pub fn is_retry(&self) -> (retry: bool)
        ensures
            retry == (self@ matches CacheModel::Unfetched { failures } && failures > 0),
    {
        match self {
            CatalogCache::Unfetched { failures } => *failures > 0,
            _ => false,
        }
    }

    /// Takes in the catalog that a fetch delivered. Only an empty cache keeps
    /// it: a cached catalog is never replaced.
    pub fn store(&mut self, catalog: GetAllRestaurantsResponse)
        ensures
            final(self)@ == old(self)@.delivered(catalog@),
    {
        if self.needs_fetch() {
            *self = CatalogCache::Fetched(catalog);
        }
    }

    /// Takes in the failure of a fetch. An empty cache counts it and, once
    /// every attempt is spent, keeps the reason as final.
    pub fn fail(&mut self, reason: String)
        ensures
            final(self)@ == old(self)@.failed(reason@),
    {
        let spent = match self {
            CatalogCache::Unfetched { failures } => Some(*failures),
            _ => None,
        };
        match spent {
            Some(failures) => {
                if failures >= FETCH_ATTEMPTS - 1 {
                    *self = CatalogCache::Failed(reason);
                } else {
                    *self = CatalogCache::Unfetched { failures: failures + 1 };
                }
            },
            None => {},
        }
    }
}

/// Once a catalog is cached, nothing that follows changes the cache or makes
/// it take in another fetch.
pub proof fn lemma_fetched_is_final(cache: CacheModel, events: Seq<CacheEvent>)
    requires
        cache is Fetched,
    ensures
        cache.replay(events) == cache,
        cache.fetches(events) == 0,
    decreases events.len(),
{
    if events.len() > 0 {
        lemma_fetched_is_final(cache, events.drop_first());
    }
}

/// Over any sequence of events a cache takes in no more fetches than it has
/// attempts left, and at most one if none of them fails.
pub proof fn lemma_fetches_bounded(cache: CacheModel, events: Seq<CacheEvent>)
    ensures
        cache.fetches(events) <= cache.attempts_left(),
        (forall|i: int| 0 <= i < events.len() ==> !(#[trigger] events[i] is Failed))
            ==> cache.fetches(events) <= 1,
    decreases events.len(),
{
    if events.len() > 0 {
        let rest = events.drop_first();
        lemma_fetches_bounded(cache.after(events.first()), rest);
        if forall|i: int| 0 <= i < events.len() ==> !(#[trigger] events[i] is Failed) {
            assert forall|i: int| 0 <= i < rest.len() implies !(#[trigger] rest[i] is Failed) by {
                assert(rest[i] == events[i + 1]);
            }
            if events.first() is Delivered && cache.needs_fetch() {
                lemma_fetched_is_final(cache.after(events.first()), rest);
            }
        }
    }
}

/// However often the catalog is asked for, a session fetches it at most
/// once, unless that fetch fails; the one retry included, at most
/// [`FETCH_ATTEMPTS`] times.
pub proof fn lemma_fetch_at_most_once(events: Seq<CacheEvent>)
    ensures
        CacheModel::fresh().fetches(events) <= FETCH_ATTEMPTS,
        (forall|i: int| 0 <= i < events.len() ==> !(#[trigger] events[i] is Failed))
            ==> CacheModel::fresh().fetches(events) <= 1,
{
    lemma_fetches_bounded(CacheModel::fresh(), events);
}

} // verus!
