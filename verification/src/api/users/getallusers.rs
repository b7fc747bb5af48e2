//! Listing all users.

use vstd::prelude::*;

verus! {

/// A user as listed, without password.
pub struct Users {
    pub id: i64,
    pub firstname: String,
    pub lastname: String,
    pub email: String,
    pub mobile: String,
    pub username: String,
    pub roles: String,
    pub isactivated: i64,
    pub isblocked: i64,
    pub mailtoken: i64,
    pub userpic: String,
}

} // verus!
