use vstd::prelude::*;

verus! {

/// An account holder.
pub struct User {
    pub username: String,
    pub email: String,
    pub sign_in_count: u64,
    pub active: bool,
}

/// A struct with no fields.
pub struct AUnitLikeStruct {}

/// An RGB colour as a tuple struct.
pub struct Color(pub i32, pub i32, pub i32);

/// A point in space as a tuple struct.
pub struct Point(pub i32, pub i32, pub i32);

/// A new active user who has signed in once.
pub fn build_user(email: String, username: String) -> (r: User)
    ensures
        r.email == email,
        r.username == username,
        r.active,
        r.sign_in_count == 1,
{
    User { email, username, active: true, sign_in_count: 1 }
}

} // verus!
