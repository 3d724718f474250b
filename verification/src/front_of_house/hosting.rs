use vstd::prelude::*;

verus! {

/// Puts a party on the waitlist.
pub fn add_to_waitlist() {
}

#[allow(dead_code)]
fn seat_at_table() {
}

} // verus!
