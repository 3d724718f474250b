//! A memoizing computation cache: a pluggable, deterministic computation
//! composed with a key-to-value store, so that each distinct key is
//! computed at most once over the cache's lifetime. Around it stand small
//! teaching modules: a restaurant's module tree, struct and enum
//! demonstrations, generic and trait examples.

use vstd::prelude::*;

pub mod arith;
pub mod back_of_house;
pub mod bbq;
pub mod cache;
pub mod cafe;
pub mod counter;
pub mod front_of_house;
pub mod generics;
pub mod ip;
pub mod lifetimes;
pub mod meal;
pub mod mybox;
pub mod ownership;
pub mod rectangle;
pub mod rest;
pub mod summary;
pub mod user;
pub mod workout;

pub use cafe::Breakfast;
pub use cafe::eat_breakfast;

verus! {

#[allow(dead_code)]
fn eat_at_restaurant() {
    crate::front_of_house::hosting::add_to_waitlist();
    front_of_house::hosting::add_to_waitlist();
}

#[allow(dead_code)]
fn serve_order() {
}

/// Picks one of each starter.
pub fn order() {
    let _order1 = meal::Appetizer::Soup;
    let _order2 = meal::Appetizer::Salad;
}

/// Joins both waitlists: the barbecue place's and the restaurant's.
#[allow(non_snake_case)]
pub fn eat_at_BBQ() {
    bbq::hosting::add_to_waitlist();
    front_of_house::hosting::add_to_waitlist();
}

/// Tries out the rest module: a couple of sleeps and some pillow change.
pub fn fk_main() {
    let _x = rest::bed::Sleep::new(3, "ok".to_owned());
    let _y = rest::bed::Sleep::new(3, "".to_owned());
    let _x = rest::bed::Coin::Penny;
    let _z = rest::bed::Coin::Dime;
}

} // verus!
