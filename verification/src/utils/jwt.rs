//! Issuing and decoding signed tokens (HS256 JSON web tokens) for
//! logged-in users.

use vstd::prelude::*;
use crate::utils::otp::{current_time, read_clock, try_fill_random, ClockReading};
use crate::utils::text::text;

verus! {

/// A secure key for HS256 should be at least 32 bytes (256 bits).
pub const JWT_SECRET_LEN: usize = 32;

/// How long an issued token stays valid: one day, in seconds.
pub const TOKEN_LIFETIME_SECONDS: i64 = 86400;

/// How long after its expiry a token is still accepted: the leeway of
/// `jsonwebtoken::Validation::default()`, in seconds.
pub const TOKEN_LEEWAY_SECONDS: u64 = 60;

/// The claims of a token: the subject (whom the token refers to) and the
/// expiration time as a UTC timestamp in seconds.
pub struct Claims {
    pub sub: String,
    pub exp: usize,
    /// Where the claims were checked against the clock, the reading they
    /// were checked at.
    pub checked_at: Option<ClockReading>,
}

/// A failure to issue or decode a token.
pub struct JwtError {
    pub message: String,
}

/// The token that `jsonwebtoken::encode` writes for the default header
/// (HS256), the claims `sub` and `exp` and an HMAC key made from `secret`.
/// HMAC signing is deterministic, so the token is a function of these values.
pub uninterp spec fn jwt_hs256(sub: Seq<char>, exp: nat, secret: Seq<u8>) -> Seq<char>;

/// What `jsonwebtoken::decode` finds in a token with an HMAC key made from
/// `secret` and the default validation without its expiry check: where the
/// header names HS256, the signature verifies, the required `exp` claim is
/// present and no `aud` claim is, the claims' `sub` (a string) and `exp` (an
/// unsigned integer); otherwise `None`. Nothing here depends on the clock.
pub uninterp spec fn hs256_claims(token: Seq<char>, secret: Seq<u8>) -> Option<(Seq<char>, u64)>;

/// Calls `jsonwebtoken::encode` with `Header::default()`, the claims `sub`
/// and `exp` as a `serde_json` object (which, with the crate's
/// `preserve_order` feature, writes its keys in the order they were inserted:
/// `sub`, then `exp`) and `EncodingKey::from_secret(secret)`; named by
/// `jwt_hs256`.
/// As the source shows, encoding with an HMAC key for the HS256 header and
/// JSON claims cannot fail, and `decode` with the same secret finds the
/// signature valid and gives the two claims back.
#[verifier::external_body]
fn jwt_encode_hs256(sub: &str, exp: usize, secret: &[u8]) -> (r: Result<String, String>)
    ensures
        match r {
            Ok(t) => t@ == jwt_hs256(sub@, exp as nat, secret@) && hs256_claims(t@, secret@) == Some(
                (sub@, exp as u64),
            ),
            Err(_) => false,
        },
{
    let mut claims = serde_json::Map::new();
    claims.insert("sub".to_string(), serde_json::Value::from(sub));
    claims.insert("exp".to_string(), serde_json::Value::from(exp));
    let key = jsonwebtoken::EncodingKey::from_secret(secret);
    match jsonwebtoken::encode(&jsonwebtoken::Header::default(), &serde_json::Value::Object(claims), &key) {
        Ok(t) => Ok(t),
        Err(e) => Err(e.to_string()),
    }
}

/// Calls `jsonwebtoken::decode` into a `serde_json::Value` with
/// `DecodingKey::from_secret(secret)` and the default validation with its
/// expiry check turned off (that check reads the clock and panics before the
/// Unix epoch; it is made by the caller), and takes the `sub` claim where it
/// is a string and the `exp` claim where it is an unsigned integer; named by
/// `hs256_claims`.
#[verifier::external_body]
fn jwt_decode_hs256(token: &str, secret: &[u8]) -> (r: Option<(String, u64)>)
    ensures
        match r {
            Some(c) => hs256_claims(token@, secret@) == Some((c.0@, c.1)),
            None => hs256_claims(token@, secret@) is None,
        },
{
    let key = jsonwebtoken::DecodingKey::from_secret(secret);
    let mut validation = jsonwebtoken::Validation::default();
    validation.validate_exp = false;
    let data = match jsonwebtoken::decode::<serde_json::Value>(token, &key, &validation) {
        Ok(d) => d,
        Err(_) => return None,
    };
    match (&data.claims["sub"], data.claims["exp"].as_u64()) {
        (serde_json::Value::String(sub), Some(exp)) => Some((sub.clone(), exp)),
        _ => None,
    }
}

/// The expiration time of a token issued at `now`: one day later, as the
/// `usize` the claims hold.
pub open spec fn expiry(now: int) -> nat {
    ((now + TOKEN_LIFETIME_SECONDS) as usize) as nat
}

/// Whether `token` is the token issued at time `now` for `user_id` with
/// `secret`: the HS256 token of the claims, which decodes back to them.
pub open spec fn issued_token(user_id: Seq<char>, secret: Seq<u8>, now: int, token: Seq<char>) -> bool {
    &&& token == jwt_hs256(user_id, expiry(now), secret)
    &&& hs256_claims(token, secret) == Some((user_id, expiry(now) as u64))
}

/// The texts of a token issuing that cannot read the clock.
pub open spec fn clock_failure(message: Seq<char>) -> bool {
    message == "system time before Unix epoch"@ || message == "system time out of range"@
}

/// Whether a token with expiry `exp` is past its expiry (and leeway) at `now`.
pub open spec fn expired(exp: u64, now: u64) -> bool {
    exp + TOKEN_LEEWAY_SECONDS < now
}

/// The claims a token decodes to at time `now`: those it carries, unless
/// it has expired.
pub open spec fn claims_at_time(token: Seq<char>, secret: Seq<u8>, now: u64) -> Option<(Seq<char>, u64)> {
    match hs256_claims(token, secret) {
        Some((sub, exp)) => if expired(exp, now) {
            None
        } else {
            Some((sub, exp))
        },
        None => None,
    }
}

/// Whether the claims `sub` and `exp` are what a token decodes to at time `now`.
pub open spec fn decodes_to(token: Seq<char>, secret: Seq<u8>, now: u64, sub: Seq<char>, exp: usize) -> bool {
    claims_at_time(token, secret, now) matches Some((s, e)) && sub == s && exp == e as usize
}

/// The claims of a token issued at time `now` for `user_id`.
pub fn claims_at(user_id: &str, now: i64) -> (c: Claims)
    requires
        now <= i64::MAX - TOKEN_LIFETIME_SECONDS,
    ensures
        c.sub@ == user_id@,
        c.exp as nat == expiry(now as int),
{
    let exp: usize = (now + TOKEN_LIFETIME_SECONDS) as usize;
    Claims { sub: String::from_str(user_id), exp, checked_at: None }
}

/// Issues a token for `user_id` signed with `secret`, as at time `now`.
/// It always succeeds, and the token decodes back to its claims.
pub fn create_jwt_at(user_id: &str, secret: &[u8], now: i64) -> (r: Result<String, JwtError>)
    requires
        now <= i64::MAX - TOKEN_LIFETIME_SECONDS,
    ensures
        r matches Ok(t) && issued_token(user_id@, secret@, now as int, t@),
{
    let claims = claims_at(user_id, now);
    match jwt_encode_hs256(claims.sub.as_str(), claims.exp, secret) {
        Ok(t) => Ok(t),
        Err(e) => Err(JwtError { message: e }),
    }
}

/// Issues a token for `user_id` signed with `secret`, expiring one day after
/// the current time; fails only where the clock cannot be read as a time
/// after the Unix epoch that a token can carry.
pub fn create_jwt(user_id: &str, secret: &[u8]) -> (r: Result<String, JwtError>)
    ensures
        match r {
            Ok(t) => exists|now: int|
                0 <= now <= i64::MAX - TOKEN_LIFETIME_SECONDS && #[trigger] issued_token(user_id@, secret@, now, t@),
            Err(e) => clock_failure(e.message@),
        },
{
    let secs: u64 = match current_time() {
        Some(t) => t,
        None => return Err(JwtError { message: text("system time before Unix epoch") }),
    };
    if secs > (i64::MAX - TOKEN_LIFETIME_SECONDS) as u64 {
        return Err(JwtError { message: text("system time out of range") });
    }
    let r = create_jwt_at(user_id, secret, secs as i64);
    assert(issued_token(user_id@, secret@, secs as int, r->Ok_0@));
    r
}

/// The decision on the verified claims `sub` and `exp` of a token at time
/// `now`: the claims, unless they have expired.
fn unexpired_claims(sub: String, exp: u64, now: u64) -> (r: Result<Claims, JwtError>)
    ensures
        expired(exp, now) ==> (r matches Err(e) && e.message@ == "ExpiredSignature"@),
        !expired(exp, now) ==> (r matches Ok(c) && c.sub@ == sub@ && c.exp == exp as usize),
{
    if exp > u64::MAX - TOKEN_LEEWAY_SECONDS || exp + TOKEN_LEEWAY_SECONDS >= now {
        Ok(Claims { sub, exp: exp as usize, checked_at: None })
    } else {
        Err(JwtError { message: text("ExpiredSignature") })
    }
}

/// Decodes a token signed with `secret` at time `now`: its claims, unless
/// the token does not verify or has expired.
pub fn decode_jwt_at(token: &str, secret: &[u8], now: u64) -> (r: Result<Claims, JwtError>)
    ensures
        claims_at_time(token@, secret@, now) is Some ==> (r matches Ok(c) && decodes_to(token@, secret@, now, c.sub@, c.exp)),
        match hs256_claims(token@, secret@) {
            None => r matches Err(e) && e.message@ == "InvalidToken"@,
            Some((_, exp)) => expired(exp, now) ==> (r matches Err(e) && e.message@ == "ExpiredSignature"@),
        },
{
    match jwt_decode_hs256(token, secret) {
        None => Err(JwtError { message: text("InvalidToken") }),
        Some((sub, exp)) => unexpired_claims(sub, exp, now),
    }
}

/// The text of a decoding that cannot read the clock.
pub open spec fn clock_unreadable(message: Seq<char>) -> bool {
    message == "system time before Unix epoch"@
}

/// Decodes a token signed with `secret` at the current time. The signature
/// is checked first; the clock is read only for a token that verifies, and
/// where it cannot be read the decoding fails with `clock_unreadable` text.
/// Claims are given back only where the token has not expired at the time
/// the clock read, which they carry.
pub fn decode_jwt(token: &str, secret: &[u8]) -> (r: Result<Claims, JwtError>)
    ensures
        r matches Ok(c) ==> exists|now: u64| #[trigger] decodes_to(token@, secret@, now, c.sub@, c.exp),
        r matches Ok(c) ==> (c.checked_at matches Some(reading) && decodes_to(
            token@,
            secret@,
            reading.seconds(),
            c.sub@,
            c.exp,
        )),
        match hs256_claims(token@, secret@) {
            None => r matches Err(e) && e.message@ == "InvalidToken"@,
            Some((_, exp)) => r matches Err(e) ==> clock_unreadable(e.message@) || (e.message@
                == "ExpiredSignature"@ && exists|now: u64| #[trigger] expired(exp, now)),
        },
{
    let (sub, exp) = match jwt_decode_hs256(token, secret) {
        Some(c) => c,
        None => return Err(JwtError { message: text("InvalidToken") }),
    };
    let reading = match read_clock() {
        Some(t) => t,
        None => return Err(JwtError { message: text("system time before Unix epoch") }),
    };
    let now: u64 = reading.secs();
    let r = match unexpired_claims(sub, exp, now) {
        Ok(c) => Ok(Claims { sub: c.sub, exp: c.exp, checked_at: Some(reading) }),
        Err(e) => Err(e),
    };
    proof {
        if r is Ok {
            assert(decodes_to(token@, secret@, now, r->Ok_0.sub@, r->Ok_0.exp));
        } else {
            assert(expired(exp, now));
        }
    }
    r
}

/// A fresh random secret of `JWT_SECRET_LEN` bytes for signing tokens;
/// `None` where the operating system's random source fails.
pub fn generate_secure_secret() -> Option<[u8; JWT_SECRET_LEN]> {
    let mut secret = [0u8; 32];
    if try_fill_random(&mut secret) {
        Some(secret)
    } else {
        None
    }
}

/// Issuing is deterministic: two tokens issued for one user with one secret
/// in the same second are the same token.
pub proof fn tokens_issued_in_one_second_agree(user_id: Seq<char>, secret: Seq<u8>, now: int, t1: Seq<char>, t2: Seq<char>)
    requires
        issued_token(user_id, secret, now, t1),
        issued_token(user_id, secret, now, t2),
    ensures
        t1 == t2,
{
}

/// An issued token is accepted, with its claims, until its expiry and leeway
/// have passed.
pub proof fn issued_token_is_accepted_until_expiry(user_id: Seq<char>, secret: Seq<u8>, issued_at: int, token: Seq<char>, now: u64)
    requires
        issued_token(user_id, secret, issued_at, token),
        now <= expiry(issued_at) as u64 + TOKEN_LEEWAY_SECONDS,
    ensures
        claims_at_time(token, secret, now) == Some((user_id, expiry(issued_at) as u64)),
{
}

/// A token is accepted only before its expiry and leeway have passed: claims
/// that a token decodes to at a clock reading are those the token carries,
/// and its expiry plus the leeway is not before that reading.
pub proof fn accepted_claims_are_unexpired_at_their_reading(token: Seq<char>, secret: Seq<u8>, c: Claims)
    requires
        c.checked_at matches Some(reading) && decodes_to(token, secret, reading.seconds(), c.sub@, c.exp),
    ensures
        hs256_claims(token, secret) matches Some((sub, exp)) && sub == c.sub@ && c.exp == exp as usize && exp
            + TOKEN_LEEWAY_SECONDS >= c.checked_at->0.seconds(),
{
}

/// A token whose expiry plus the leeway is before `now` decodes to nothing
/// at `now`.
pub proof fn expired_token_is_refused(token: Seq<char>, secret: Seq<u8>, now: u64)
    requires
        hs256_claims(token, secret) matches Some((_, exp)) && exp + TOKEN_LEEWAY_SECONDS < now,
    ensures
        claims_at_time(token, secret, now) is None,
{
}

/// A token issued at time `now` (in seconds) carries the user as its subject
/// and expires exactly one day (86400 seconds) later.
pub proof fn issued_token_expires_one_day_after_issue(user_id: Seq<char>, secret: Seq<u8>, now: int, token: Seq<char>)
    requires
        issued_token(user_id, secret, now, token),
        0 <= now,
        now + TOKEN_LIFETIME_SECONDS <= usize::MAX,
    ensures
        hs256_claims(token, secret) == Some((user_id, (now + 86400) as u64)),
{
}

} // verus!
