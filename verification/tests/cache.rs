use restaurant_picker::cache::{CatalogCache, FETCH_ATTEMPTS};
use restaurant_picker::catalog::{GetAllRestaurantsResponse, ResterauntSection};

fn catalog(name: &str) -> GetAllRestaurantsResponse {
    GetAllRestaurantsResponse {
        sections: vec![ResterauntSection {
            items: vec![],
            name: name.to_string(),
            template: "venue-list".to_string(),
        }],
    }
}

#[test]
fn fresh_cache_is_unfetched() {
    let cache = CatalogCache::new();
    assert_eq!(cache, CatalogCache::Unfetched { failures: 0 });
    assert!(cache.needs_fetch());
    assert!(!cache.is_retry());
    assert!(cache.get_catalog().is_none());
}

#[test]
fn stored_catalog_is_returned_on_every_lookup() {
    let mut cache = CatalogCache::new();
    cache.store(catalog("first"));
    assert!(!cache.needs_fetch());
    for _ in 0..5 {
        assert_eq!(cache.get_catalog(), Some(&catalog("first")));
    }
}

#[test]
fn stored_catalog_is_never_replaced() {
    let mut cache = CatalogCache::new();
    cache.store(catalog("first"));
    cache.store(catalog("second"));
    assert_eq!(cache.get_catalog(), Some(&catalog("first")));
    cache.fail("late failure".to_string());
    cache.fail("late failure".to_string());
    assert_eq!(cache, CatalogCache::Fetched(catalog("first")));
}

#[test]
fn first_failure_leaves_one_retry() {
    let mut cache = CatalogCache::new();
    cache.fail("timeout".to_string());
    assert_eq!(cache, CatalogCache::Unfetched { failures: 1 });
    assert!(cache.needs_fetch());
    assert!(cache.is_retry());
    cache.store(catalog("retried"));
    assert_eq!(cache.get_catalog(), Some(&catalog("retried")));
}

#[test]
fn second_failure_is_final() {
    let mut cache = CatalogCache::new();
    cache.fail("timeout".to_string());
    cache.fail("refused".to_string());
    assert_eq!(cache, CatalogCache::Failed("refused".to_string()));
    assert!(!cache.needs_fetch());
    assert!(!cache.is_retry());
    assert!(cache.get_catalog().is_none());
    cache.store(catalog("too late"));
    cache.fail("again".to_string());
    assert_eq!(cache, CatalogCache::Failed("refused".to_string()));
}

#[test]
fn cache_asks_for_at_most_two_fetches() {
    assert_eq!(FETCH_ATTEMPTS, 2);
    let mut cache = CatalogCache::new();
    let mut fetches = 0;
    for _ in 0..10 {
        if cache.needs_fetch() {
            fetches += 1;
            cache.fail("down".to_string());
        }
        assert!(cache.get_catalog().is_none());
    }
    assert_eq!(fetches, 2);
}

#[test]
fn cache_asks_for_one_fetch_when_it_succeeds() {
    let mut cache = CatalogCache::new();
    let mut fetches = 0;
    for round in 0..10 {
        if cache.needs_fetch() {
            fetches += 1;
            cache.store(catalog("only"));
        }
        assert_eq!(cache.get_catalog(), Some(&catalog("only")), "round {}", round);
    }
    assert_eq!(fetches, 1);
}

#[test]
fn overfull_failure_count_gives_up_at_the_next_failure() {
    let mut cache = CatalogCache::Unfetched { failures: u8::MAX };
    assert!(cache.is_retry());
    cache.fail("down".to_string());
    assert_eq!(cache, CatalogCache::Failed("down".to_string()));
}
