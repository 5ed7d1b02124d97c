use vstd::prelude::*;

verus! {

/// A user account record: an activity flag, two text fields, and a sign-in
/// counter. A fixed-shape aggregate with no invariant beyond field presence.
pub struct User {
    pub active: bool,
    pub username: String,
    pub email: String,
    pub sign_in_count: u64,
}

/// Builds a `User` from the two supplied text values. The record starts
/// active with a sign-in count of one, and takes ownership of exactly the
/// e-mail and username it was given, unchanged. No validation is performed
/// on either input, and the call cannot fail.
pub fn build_user(email: String, username: String) -> (user: User)
    ensures
        user.active == true,
        user.username == username,
        user.email == email,
        user.sign_in_count == 1u64,
{
    User {
        active: true,
        username: username,
        email: email,
        sign_in_count: 1,
    }
}

} // verus!
