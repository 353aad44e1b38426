use restaurant_picker::catalog::{
    GetAllRestaurantsResponse, ResterauntFilter, ResterauntFiltering, ResterauntItem,
    ResterauntLink, ResterauntSection, ResterauntVenue,
};
use restaurant_picker::filter::{contains_category, filter, is_eligible, shares_category};
use restaurant_picker::preferences::PreferenceState;

fn strings(values: &[&str]) -> Vec<String> {
    values.iter().map(|value| value.to_string()).collect()
}

fn restaurant(title: &str, tags: &[&str]) -> ResterauntItem {
    ResterauntItem {
        link: ResterauntLink { target: format!("https://example.test/{}", title) },
        title: title.to_string(),
        filtering: ResterauntFiltering {
            filters: vec![ResterauntFilter { id: "primary".to_string(), values: strings(tags) }],
        },
        venue: ResterauntVenue {
            address: "1 Main St".to_string(),
            estimate_range: "20-30".to_string(),
            location: vec![34_811_000, 32_079_000],
            delivery_price: "10".to_string(),
            slug: title.to_lowercase(),
        },
    }
}

fn catalog(items: Vec<ResterauntItem>) -> GetAllRestaurantsResponse {
    GetAllRestaurantsResponse {
        sections: vec![ResterauntSection {
            items,
            name: "restaurants".to_string(),
            template: "venue-list".to_string(),
        }],
    }
}

fn three() -> GetAllRestaurantsResponse {
    catalog(vec![
        restaurant("One", &["pizza"]),
        restaurant("Two", &["sushi"]),
        restaurant("Three", &["pizza", "vegan"]),
    ])
}

fn titles(pool: &[&ResterauntItem]) -> Vec<String> {
    pool.iter().map(|item| item.title.clone()).collect()
}

#[test]
fn no_preferences_keep_every_restaurant() {
    let catalog = three();
    let pool = filter(&catalog, &String::new(), &vec![]);
    assert_eq!(titles(&pool), strings(&["One", "Two", "Three"]));
}

#[test]
fn liked_category_keeps_only_restaurants_tagged_with_it() {
    let catalog = three();
    let pool = filter(&catalog, &"pizza".to_string(), &vec![]);
    assert_eq!(titles(&pool), strings(&["One", "Three"]));
}

#[test]
fn disliked_category_removes_restaurants_tagged_with_it() {
    let catalog = three();
    let pool = filter(&catalog, &"pizza".to_string(), &strings(&["vegan"]));
    assert_eq!(titles(&pool), strings(&["One"]));
}

#[test]
fn filter_returns_the_items_themselves() {
    let catalog = three();
    let pool = filter(&catalog, &"sushi".to_string(), &vec![]);
    assert_eq!(pool.len(), 1);
    assert_eq!(*pool[0], catalog.sections[0].items[1]);
}

#[test]
fn every_item_is_kept_exactly_when_it_is_eligible() {
    let catalog = catalog(vec![
        restaurant("A", &["pizza", "italian"]),
        restaurant("B", &["sushi", "asian"]),
        restaurant("C", &[]),
        restaurant("D", &["italian", "vegan"]),
        restaurant("E", &["burger"]),
    ]);
    let cases = vec![
        ("", strings(&[])),
        ("italian", strings(&[])),
        ("italian", strings(&["vegan"])),
        ("", strings(&["asian", "burger"])),
        ("missing", strings(&[])),
        ("", strings(&["pizza", "sushi", "vegan", "burger"])),
    ];
    for (liked, disliked) in cases {
        let liked = liked.to_string();
        let pool = filter(&catalog, &liked, &disliked);
        for item in &catalog.sections[0].items {
            let tags = &item.filtering.filters[0].values;
            let expected = (liked.is_empty() || tags.contains(&liked))
                && !tags.iter().any(|tag| disliked.contains(tag));
            assert_eq!(is_eligible(item, &liked, &disliked), expected);
            assert_eq!(pool.iter().any(|kept| *kept == item), expected);
        }
    }
}

#[test]
fn filtering_twice_gives_the_same_pool() {
    let catalog = three();
    let liked = "pizza".to_string();
    let disliked = strings(&["vegan"]);
    let first = titles(&filter(&catalog, &liked, &disliked));
    let second = titles(&filter(&catalog, &liked, &disliked));
    assert_eq!(first, second);
}

#[test]
fn filtering_a_pool_again_changes_nothing() {
    let liked = "pizza".to_string();
    let disliked = strings(&["vegan"]);
    let first_catalog = three();
    let first: Vec<ResterauntItem> =
        filter(&first_catalog, &liked, &disliked).into_iter().cloned().collect();
    let second_catalog = catalog(first.clone());
    let second: Vec<ResterauntItem> =
        filter(&second_catalog, &liked, &disliked).into_iter().cloned().collect();
    assert_eq!(first, second);
}

#[test]
fn order_and_repeats_of_disliked_categories_do_not_matter() {
    let catalog = three();
    let once = titles(&filter(&catalog, &String::new(), &strings(&["vegan", "sushi"])));
    let repeated =
        titles(&filter(&catalog, &String::new(), &strings(&["sushi", "vegan", "sushi", "vegan"])));
    assert_eq!(once, strings(&["One"]));
    assert_eq!(once, repeated);
}

#[test]
fn liked_category_excludes_restaurants_without_tags() {
    let catalog = catalog(vec![restaurant("Bare", &[]), restaurant("Tagged", &["pizza"])]);
    assert_eq!(titles(&filter(&catalog, &String::new(), &vec![])), strings(&["Bare", "Tagged"]));
    assert_eq!(titles(&filter(&catalog, &"pizza".to_string(), &vec![])), strings(&["Tagged"]));
}

#[test]
fn restaurant_without_filter_groups_has_no_categories() {
    let mut bare = restaurant("Bare", &[]);
    bare.filtering.filters.clear();
    assert!(bare.categories().is_none());
    assert!(is_eligible(&bare, &String::new(), &strings(&["pizza"])));
    assert!(!is_eligible(&bare, &"pizza".to_string(), &vec![]));
}

#[test]
fn only_the_first_filter_group_counts() {
    let mut item = restaurant("Two groups", &["pizza"]);
    item.filtering
        .filters
        .push(ResterauntFilter { id: "secondary".to_string(), values: strings(&["vegan"]) });
    assert_eq!(item.categories(), Some(&strings(&["pizza"])));
    assert!(is_eligible(&item, &String::new(), &strings(&["vegan"])));
    assert!(!is_eligible(&item, &"vegan".to_string(), &vec![]));
}

#[test]
fn only_the_first_section_is_offered() {
    let mut catalog = three();
    catalog.sections.push(ResterauntSection {
        items: vec![restaurant("Elsewhere", &["pizza"])],
        name: "more".to_string(),
        template: "venue-list".to_string(),
    });
    assert_eq!(catalog.items().map(|items| items.len()), Some(3));
    assert_eq!(
        titles(&filter(&catalog, &"pizza".to_string(), &vec![])),
        strings(&["One", "Three"])
    );
}

#[test]
fn catalog_without_sections_offers_nothing() {
    let catalog = GetAllRestaurantsResponse { sections: vec![] };
    assert!(catalog.items().is_none());
    assert!(filter(&catalog, &String::new(), &vec![]).is_empty());
}

#[test]
fn category_membership() {
    let tags = strings(&["pizza", "vegan"]);
    assert!(contains_category(&tags, &"vegan".to_string()));
    assert!(!contains_category(&tags, &"sushi".to_string()));
    assert!(!contains_category(&vec![], &"sushi".to_string()));
    assert!(shares_category(&tags, &strings(&["sushi", "vegan"])));
    assert!(!shares_category(&tags, &strings(&["sushi"])));
    assert!(!shares_category(&tags, &vec![]));
    assert!(!shares_category(&vec![], &tags));
}

#[test]
fn preference_state_starts_empty_and_records_answers() {
    let mut preferences = PreferenceState::new();
    assert_eq!(preferences.liked_category, "");
    assert!(preferences.disliked_categories.is_empty());
    preferences.like("pizza".to_string());
    preferences.dislike("vegan".to_string());
    preferences.dislike("vegan".to_string());
    assert_eq!(preferences.liked_category, "pizza");
    assert_eq!(preferences.disliked_categories, strings(&["vegan", "vegan"]));
    preferences.like("sushi".to_string());
    assert_eq!(preferences.liked_category, "sushi");
    preferences.reset();
    assert_eq!(preferences, PreferenceState::new());
}

#[test]
fn preference_state_takes_in_answers() {
    let mut preferences = PreferenceState::new();
    preferences.answer("pizza".to_string(), 2);
    preferences.answer("pizza".to_string(), 17);
    assert_eq!(preferences, PreferenceState::new());
    preferences.answer("pizza".to_string(), 1);
    assert_eq!(preferences.liked_category, "");
    assert_eq!(preferences.disliked_categories, strings(&["pizza"]));
    preferences.answer("sushi".to_string(), 0);
    assert_eq!(preferences.liked_category, "sushi");
    assert_eq!(preferences.disliked_categories, strings(&["pizza"]));
    assert_eq!(preferences.clone(), preferences);
}

#[test]
fn preference_state_filters_like_the_filter() {
    let catalog = three();
    let mut preferences = PreferenceState::new();
    assert_eq!(titles(&preferences.candidates(&catalog)), strings(&["One", "Two", "Three"]));
    preferences.like("pizza".to_string());
    assert_eq!(titles(&preferences.candidates(&catalog)), strings(&["One", "Three"]));
    preferences.dislike("vegan".to_string());
    assert_eq!(titles(&preferences.candidates(&catalog)), strings(&["One"]));
    assert!(preferences.admits(&catalog.sections[0].items[0]));
    assert!(!preferences.admits(&catalog.sections[0].items[1]));
    assert!(!preferences.admits(&catalog.sections[0].items[2]));
}

#[test]
fn cloned_catalog_equals_its_source() {
    let catalog = three();
    assert_eq!(catalog.clone(), catalog);
    assert_eq!(catalog.sections[0].items[2].clone(), catalog.sections[0].items[2]);
}
