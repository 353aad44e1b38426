//! The restaurant catalog as the delivery platform reports it, and the
//! mathematical model each record is reasoned about with.

use vstd::prelude::*;

verus! {

/// Index of the catalog section whose items are offered.
pub const CATALOG_SECTION: usize = 0;

/// Index of the filter group whose values are an item's category tags.
pub const CATEGORY_GROUP: usize = 0;

/// Coordinates are kept as whole micro-degrees (degrees times one million).
pub const MICRO_DEGREES_PER_DEGREE: i64 = 1_000_000;

/// Model of a [`ResterauntFilter`].
pub struct FilterModel {
    pub id: Seq<char>,
    pub values: Seq<Seq<char>>,
}

/// Model of a [`ResterauntVenue`].
pub struct VenueModel {
    pub address: Seq<char>,
    pub estimate_range: Seq<char>,
    pub location: Seq<i64>,
    pub delivery_price: Seq<char>,
    pub slug: Seq<char>,
}

/// Model of a [`ResterauntItem`].
pub struct ItemModel {
    pub target: Seq<char>,
    pub title: Seq<char>,
    pub filters: Seq<FilterModel>,
    pub venue: VenueModel,
}

/// Model of a [`ResterauntSection`].
pub struct SectionModel {
    pub items: Seq<ItemModel>,
    pub name: Seq<char>,
    pub template: Seq<char>,
}

impl ItemModel {
    /// The category tags of an item: the values of its category filter
    /// group, or nothing when the item carries no such group.
    pub open spec fn categories(self) -> Seq<Seq<char>> {
        if CATEGORY_GROUP < self.filters.len() {
            self.filters[CATEGORY_GROUP as int].values
        } else {
            Seq::empty()
        }
    }
}

/// The items a catalog offers: those of its first section, or nothing when
/// the catalog has no section at all.
pub open spec fn catalog_items(sections: Seq<SectionModel>) -> Seq<ItemModel> {
    if CATALOG_SECTION < sections.len() {
        sections[CATALOG_SECTION as int].items
    } else {
        Seq::empty()
    }
}

/// Where selecting a restaurant leads to.
#[derive(Debug, PartialEq, Eq)]
pub struct ResterauntLink {
    pub target: String,
}

/// One group of filter values attached to a restaurant.
#[derive(Debug, PartialEq, Eq)]
pub struct ResterauntFilter {
    pub id: String,
    pub values: Vec<String>,
}

/// All filter groups of a restaurant.
#[derive(Debug, PartialEq, Eq)]
pub struct ResterauntFiltering {
    pub filters: Vec<ResterauntFilter>,
}

/// Venue details of a restaurant. `location` holds the coordinates in
/// micro-degrees, in the order the platform reports them.
#[derive(Debug, PartialEq, Eq)]
pub struct ResterauntVenue {
    pub address: String,
    pub estimate_range: String,
    pub location: Vec<i64>,
    pub delivery_price: String,
    pub slug: String,
}

/// One restaurant of the catalog.
#[derive(Debug, PartialEq, Eq)]
pub struct ResterauntItem {
    pub link: ResterauntLink,
    pub title: String,
    pub filtering: ResterauntFiltering,
    pub venue: ResterauntVenue,
}

/// One section of the catalog.
#[derive(Debug, PartialEq, Eq)]
pub struct ResterauntSection {
    pub items: Vec<ResterauntItem>,
    pub name: String,
    pub template: String,
}

/// The whole catalog: what one fetch returns and the session caches.
#[derive(Debug, PartialEq, Eq)]
pub struct GetAllRestaurantsResponse {
    pub sections: Vec<ResterauntSection>,
}

impl View for ResterauntLink {
    type V = Seq<char>;

    open spec fn view(&self) -> Seq<char> {
        self.target@
    }
}

impl View for ResterauntFilter {
    type V = FilterModel;

    open spec fn view(&self) -> FilterModel {
        FilterModel { id: self.id@, values: self.values.deep_view() }
    }
}

impl DeepView for ResterauntFilter {
    type V = FilterModel;

    open spec fn deep_view(&self) -> FilterModel {
        self@
    }
}

impl View for ResterauntFiltering {
    type V = Seq<FilterModel>;

    open spec fn view(&self) -> Seq<FilterModel> {
        self.filters.deep_view()
    }
}

impl View for ResterauntVenue {
    type V = VenueModel;

    open spec fn view(&self) -> VenueModel {
        VenueModel {
            address: self.address@,
            estimate_range: self.estimate_range@,
            location: self.location@,
            delivery_price: self.delivery_price@,
            slug: self.slug@,
        }
    }
}

impl View for ResterauntItem {
    type V = ItemModel;

    open spec fn view(&self) -> ItemModel {
        ItemModel {
            target: self.link@,
            title: self.title@,
            filters: self.filtering@,
            venue: self.venue@,
        }
    }
}

impl DeepView for ResterauntItem {
    type V = ItemModel;

    open spec fn deep_view(&self) -> ItemModel {
        self@
    }
}

impl View for ResterauntSection {
    type V = SectionModel;

    open spec fn view(&self) -> SectionModel {
        SectionModel { items: self.items.deep_view(), name: self.name@, template: self.template@ }
    }
}

impl DeepView for ResterauntSection {
    type V = SectionModel;

    open spec fn deep_view(&self) -> SectionModel {
        self@
    }
}

impl View for GetAllRestaurantsResponse {
    type V = Seq<SectionModel>;

    open spec fn view(&self) -> Seq<SectionModel> {
        self.sections.deep_view()
    }
}

impl Clone for ResterauntLink {
    fn clone(&self) -> (res: Self)
        ensures
            res@ == self@,
    {
        ResterauntLink { target: self.target.clone() }
    }
}

impl Clone for ResterauntFilter {
    fn clone(&self) -> (res: Self)
        ensures
            res@ == self@,
    {
        let values = self.values.clone();
        assert(values.deep_view() =~= self.values.deep_view());
        ResterauntFilter { id: self.id.clone(), values }
    }
}

impl Clone for ResterauntFiltering {
    fn clone(&self) -> (res: Self)
        ensures
            res@ == self@,
    {
        let filters = self.filters.clone();
        assert(filters.deep_view() =~= self.filters.deep_view());
        ResterauntFiltering { filters }
    }
}

impl Clone for ResterauntVenue {
    fn clone(&self) -> (res: Self)
        ensures
            res@ == self@,
    {
        let location = self.location.clone();
        assert(location@ =~= self.location@);
        ResterauntVenue {
            address: self.address.clone(),
            estimate_range: self.estimate_range.clone(),
            location,
            delivery_price: self.delivery_price.clone(),
            slug: self.slug.clone(),
        }
    }
}

impl Clone for ResterauntItem {
    fn clone(&self) -> (res: Self)
        ensures
            res@ == self@,
    {
        ResterauntItem {
            link: self.link.clone(),
            title: self.title.clone(),
            filtering: self.filtering.clone(),
            venue: self.venue.clone(),
        }
    }
}

impl Clone for ResterauntSection {
    fn clone(&self) -> (res: Self)
        ensures
            res@ == self@,
    {
        let items = self.items.clone();
        assert(items.deep_view() =~= self.items.deep_view());
        ResterauntSection { items, name: self.name.clone(), template: self.template.clone() }
    }
}

impl Clone for GetAllRestaurantsResponse {
    fn clone(&self) -> (res: Self)
        ensures
            res@ == self@,
    {
        let sections = self.sections.clone();
        assert(sections.deep_view() =~= self.sections.deep_view());
        GetAllRestaurantsResponse { sections }
    }
}

impl ResterauntItem {
    /// The item's category tags, if it carries the category filter group.
    pub fn categories(&self) -> (tags: Option<&Vec<String>>)
        ensures
            match tags {
                Some(values) => values.deep_view() == self@.categories() && CATEGORY_GROUP
                    < self@.filters.len(),
                None => self@.categories() == Seq::<Seq<char>>::empty() && CATEGORY_GROUP
                    >= self@.filters.len(),
            },
    {
        if CATEGORY_GROUP < self.filtering.filters.len() {
            Some(&self.filtering.filters[CATEGORY_GROUP].values)
        } else {
            None
        }
    }
}

impl GetAllRestaurantsResponse {
    /// The items on offer, if the catalog has a section to take them from.
    pub fn items(&self) -> (items: Option<&Vec<ResterauntItem>>)
        ensures
            match items {
                Some(list) => list.deep_view() == catalog_items(self@) && CATALOG_SECTION
                    < self@.len(),
                None => catalog_items(self@) == Seq::<ItemModel>::empty() && CATALOG_SECTION
                    >= self@.len(),
            },
    {
        if CATALOG_SECTION < self.sections.len() {
            Some(&self.sections[CATALOG_SECTION].items)
        } else {
            None
        }
    }
}

} // verus!
