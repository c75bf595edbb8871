//! A user account record and its builder.

use vstd::prelude::*;

verus! {

/// A user account.
#[derive(Clone, Debug)]
pub struct User {
    pub active: bool,
    pub username: String,
    pub email: String,
    pub sign_in_count: u64,
}

/// Builds a fresh, active user with the given e-mail address and user name
/// and a sign-in count of one.
pub fn build_user(email: String, username: String) -> (r: User)
    ensures
        r.email == email,
        r.username == username,
        r.active == true,
        r.sign_in_count == 1,
{
    User { email, username, active: true, sign_in_count: 1 }
}

} // verus!
