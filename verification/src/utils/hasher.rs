//! Password hashing with bcrypt.

use vstd::prelude::*;

verus! {

/// What `bcrypt::verify` answers for a password and a stored hash: whether
/// the password matches, or the text of the error that it reports.
pub uninterp spec fn bcrypt_verification(password: Seq<char>, hash: Seq<char>) -> Result<bool, Seq<char>>;

/// The text that bcrypt's error for a failing random source begins with.
pub open spec fn rand_error_prefix() -> Seq<char> {
    "Rand error: "@
}

/// The characters that every hash made with bcrypt's default cost begins with:
/// version `2b`, cost `12`.
pub open spec fn default_cost_prefix() -> Seq<char> {
    seq!['$', '2', 'b', '$', '1', '2', '$']
}

/// Calls `bcrypt::verify`. Its answer depends on the password and the hash
/// alone (the salt and the cost are read from the hash), so it is named by
/// `bcrypt_verification`; an error is handed back as its display text.
#[verifier::external_body]
fn bcrypt_verify(password: &str, hash: &str) -> (r: Result<bool, String>)
    ensures
        match r {
            Ok(b) => bcrypt_verification(password@, hash@) == Ok::<bool, Seq<char>>(b),
            Err(e) => bcrypt_verification(password@, hash@) == Err::<bool, Seq<char>>(e@),
        },
{
    match bcrypt::verify(password, hash) {
        Ok(b) => Ok(b),
        Err(e) => Err(e.to_string()),
    }
}

/// Calls `bcrypt::hash` with `bcrypt::DEFAULT_COST`. The salt is drawn from
/// the operating system's randomness, so the hash itself is not determined by
/// the password. What holds of every hash it returns, as bcrypt's source
/// shows: `bcrypt::verify` accepts the same password against it (the salt and
/// cost are read back from the hash and the same truncation to 72 bytes is
/// applied), and it is 60 characters long, starting with `$2b$12$`. The only
/// failure is the random source failing (`BcryptError::Rand`, as the cost is
/// valid and passwords are truncated rather than refused); its text begins
/// with `Rand error: ` and the rest is the random source's own.
#[verifier::external_body]
fn bcrypt_hash_default_cost(password: &str) -> (r: Result<String, String>)
    ensures
        match r {
            Ok(h) => bcrypt_verification(password@, h@) == Ok::<bool, Seq<char>>(true)
                && h@.len() == 60 && h@.subrange(0, 7) == default_cost_prefix(),
            Err(e) => rand_error_prefix().is_prefix_of(e@),
        },
{
    match bcrypt::hash(password, bcrypt::DEFAULT_COST) {
        Ok(h) => Ok(h),
        Err(e) => Err(e.to_string()),
    }
}

/// Which bcrypt call a failure came from. Only this module makes one, so a
/// cause that names the random source comes from `hash_password`, where
/// `bcrypt::hash` itself failed.
pub struct HashCause {
    random_source: bool,
}

impl HashCause {
    /// Whether `bcrypt::hash` failed because the random source failed (and
    /// not `bcrypt::verify` on a stored hash it cannot read).
    pub closed spec fn is_random_source(self) -> bool {
        self.random_source
    }
}

/// A failure of bcrypt, with the text that bcrypt gives for it and the call
/// that failed.
pub struct HashError {
    pub message: String,
    pub cause: HashCause,
}

impl HashError {
    /// Whether this is `bcrypt::hash` failing because the random source
    /// failed.
    pub open spec fn from_random_source(self) -> bool {
        self.cause.is_random_source()
    }
}

/// Hashes a password with bcrypt's default cost and a fresh random salt.
/// A returned hash is one that `verify_password` accepts for the same password;
/// it fails only where the random source fails.
pub fn hash_password(password: &str) -> (r: Result<String, HashError>)
    ensures
        r matches Err(e) ==> rand_error_prefix().is_prefix_of(e.message@),
        r matches Err(e) ==> e.from_random_source(),
        r matches Ok(h) ==> bcrypt_verification(password@, h@) == Ok::<bool, Seq<char>>(true),
        r matches Ok(h) ==> h@.len() == 60 && h@.subrange(0, 7) == default_cost_prefix(),
{
    match bcrypt_hash_default_cost(password) {
        Ok(h) => Ok(h),
        Err(e) => Err(HashError { message: e, cause: HashCause { random_source: true } }),
    }
}

/// Checks a password attempt against a stored bcrypt hash.
pub fn verify_password(password_attempt: &str, stored_hash: &str) -> (r: Result<bool, HashError>)
    ensures
        match r {
            Ok(b) => bcrypt_verification(password_attempt@, stored_hash@) == Ok::<bool, Seq<char>>(b),
            Err(e) => bcrypt_verification(password_attempt@, stored_hash@)
                == Err::<bool, Seq<char>>(e.message@) && !e.from_random_source(),
        },
{
    match bcrypt_verify(password_attempt, stored_hash) {
        Ok(b) => Ok(b),
        Err(e) => Err(HashError { message: e, cause: HashCause { random_source: false } }),
    }
}

} // verus!
