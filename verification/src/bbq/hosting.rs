use vstd::prelude::*;

verus! {

/// Puts a party on the barbecue place's waitlist.
pub fn add_to_waitlist() {
}

} // verus!
