//! The back of the house: cooking, and fixing orders that went wrong.

use vstd::prelude::*;

verus! {

#[allow(dead_code)]
fn fix_incorrect_order() {
    cook_order();
    crate::serve_order();
}

#[allow(dead_code)]
fn cook_order() {
}

} // verus!
