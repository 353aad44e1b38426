//! A restaurant picker: the decision logic of an interactive session that
//! offers randomly chosen nearby restaurants until one is accepted.
//!
//! The crate holds the data model of the restaurant catalog, the lazily
//! filled catalog cache, the like/dislike candidate filter, the random
//! selector and the picking cycle itself, written as a state machine that
//! turns events (a fetched catalog, a registered choice) into actions
//! (fetch, ask, finish). Everything that touches a terminal or the network
//! lives with the caller.

pub mod cache;
pub mod catalog;
pub mod end_screen;
pub mod error;
pub mod filter;
pub mod picking_cycle;
pub mod preferences;
mod random;
pub mod restaurant_display;
pub mod selector;
pub mod text;
