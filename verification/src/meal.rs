//! Starters on the menu.

use vstd::prelude::*;

verus! {

/// What to eat before the main course.
pub enum Appetizer {
    Soup,
    Salad,
}

} // verus!
