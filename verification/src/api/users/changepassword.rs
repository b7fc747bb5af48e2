//! Changing a user's password (stored as a bcrypt hash).

use vstd::prelude::*;
use crate::utils::hasher::{bcrypt_verification, default_cost_prefix, hash_password, rand_error_prefix, HashError};
use crate::utils::text::text;

verus! {

/// A password change request.
pub struct UserRequest {
    pub password: String,
}

/// The JSON body of the answer.
pub struct UserResponse {
    pub message: String,
}

/// The text of the answer once the new hash has been stored: success where
/// a row changed.
pub open spec fn password_change_text(rows_affected: u64) -> Seq<char> {
    if rows_affected > 0 {
        "You have changed your password successfully."@
    } else {
        "Unable to change your password, try again later...."@
    }
}

/// The answer once the new hash has been stored: status 200 OK either way,
/// and the text by whether a row changed.
pub fn password_change_reply(rows_affected: u64) -> (r: (u16, UserResponse))
    ensures
        r.0 == 200,
        r.1.message@ == password_change_text(rows_affected),
{
    if rows_affected > 0 {
        (200, UserResponse { message: text("You have changed your password successfully.") })
    } else {
        (200, UserResponse { message: text("Unable to change your password, try again later....") })
    }
}

/// What a password change asks the server to do first.
pub enum PasswordAction {
    /// Store this hash as the user's password.
    Update(String),
    /// The password could not be hashed; the request cannot be served.
    Fail(HashError),
}

/// A password change begins by hashing the new password; the stored hash
/// accepts it and is a 60-character bcrypt hash made with the default cost.
pub fn password_change_start(payload: &UserRequest) -> (r: PasswordAction)
    ensures
        match r {
            PasswordAction::Update(h) => bcrypt_verification(payload.password@, h@)
                == Ok::<bool, Seq<char>>(true) && h@.len() == 60 && h@.subrange(0, 7) == default_cost_prefix(),
            PasswordAction::Fail(e) => rand_error_prefix().is_prefix_of(e.message@) && e.from_random_source(),
        },
{
    match hash_password(payload.password.as_str()) {
        Ok(h) => PasswordAction::Update(h),
        Err(e) => PasswordAction::Fail(e),
    }
}

} // verus!
