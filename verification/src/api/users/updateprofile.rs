//! Updating a user's names and mobile number.

use vstd::prelude::*;
use crate::utils::text::text;

verus! {

/// A profile update request.
pub struct UserRequest {
    pub firstname: String,
    pub lastname: String,
    pub mobile: String,
}

/// The JSON body of the answer.
pub struct UserResponse {
    pub message: String,
}

/// The text of the answer once the update has run: success where a row changed.
pub open spec fn profile_update_text(rows_affected: u64) -> Seq<char> {
    if rows_affected > 0 {
        "You have updated your profile successfully"@
    } else {
        "No record(s) where updated...."@
    }
}

/// The answer once the update has run: status 200 OK either way, and the
/// text by whether a row changed.
pub fn profile_update_reply(rows_affected: u64) -> (r: (u16, UserResponse))
    ensures
        r.0 == 200,
        r.1.message@ == profile_update_text(rows_affected),
{
    if rows_affected > 0 {
        (200, UserResponse { message: text("You have updated your profile successfully") })
    } else {
        (200, UserResponse { message: text("No record(s) where updated....") })
    }
}

} // verus!
