//! An account holder record.

use vstd::prelude::*;

verus! {

/// An account holder.
#[derive(Debug)]
pub struct User {
    pub username: String,
    pub email: String,
    pub sign_in_count: i32,
    pub active: bool,
}

/// A brand-new, inactive user who has never signed in.
pub fn build_user(email: String, username: String) -> (user: User)
    ensures
        user.email == email,
        user.username == username,
        user.sign_in_count == 0,
        user.active == false,
{
    let user = User { email, username, sign_in_count: 0, active: false };
    user
}

} // verus!
