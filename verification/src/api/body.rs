//! Reading members of JSON request bodies.

use vstd::prelude::*;

verus! {

/// What `serde_json` makes of a request body and one of its members: where
/// the body parses as JSON, the compact JSON text (`Display` of the value) of
/// the member `key`, which is `null` when the member is missing or the body is
/// not an object; `None` where the body is not JSON.
pub uninterp spec fn json_member_text(body: Seq<char>, key: Seq<char>) -> Option<Seq<char>>;

/// Parses `body` with `serde_json::from_str` into a `serde_json::Value`, takes
/// the member `key` by indexing and writes it back with `to_string`; named by
/// `json_member_text`.
#[verifier::external_body]
fn json_body_member(body: &str, key: &str) -> (r: Option<String>)
    ensures
        match r {
            Some(t) => json_member_text(body@, key@) == Some(t@),
            None => json_member_text(body@, key@) is None,
        },
{
    match serde_json::from_str::<serde_json::Value>(body) {
        Ok(v) => Some(v[key].to_string()),
        Err(_) => None,
    }
}

/// The JSON text of the member `key` of a JSON request body; `None` where the
/// body is not JSON.
pub fn member_text(body: &str, key: &str) -> (r: Option<String>)
    ensures
        match r {
            Some(t) => json_member_text(body@, key@) == Some(t@),
            None => json_member_text(body@, key@) is None,
        },
{
    json_body_member(body, key)
}

} // verus!
