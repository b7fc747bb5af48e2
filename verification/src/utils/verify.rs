//! Bearer-token authentication of the protected routes: which token a request
//! carries, and what it is answered when the token is missing or rejected.

use vstd::prelude::*;
use crate::utils::jwt::{decode_jwt, decodes_to, expired, hs256_claims};
use crate::utils::otp::opt_text;
use crate::utils::text::{push_char, same_text, text};

verus! {

/// The claims carried by a valid token.
pub struct Claims {
    /// Subject (user ID).
    pub sub: String,
    /// Expiration time.
    pub exp: usize,
}

/// The JSON body of a refusal.
pub struct ErrorResponse {
    pub message: String,
}

/// Why a request to a protected route is refused.
#[derive(Clone, Copy, PartialEq, Eq, Structural, Debug)]
pub enum AuthRejection {
    /// No `Authorization: Bearer <token>` header.
    MissingToken,
    /// The token does not decode or validate with the server's secret.
    Unauthorized,
}

/// What a request to a protected route leads to once its header is read.
pub enum AuthStep {
    /// Decode and validate this token.
    Decode(String),
    /// Answer with this refusal.
    Refuse(AuthRejection),
}

/// A byte that `http::HeaderValue::to_str` accepts: visible ASCII or a tab.
pub open spec fn is_visible_ascii(b: u8) -> bool {
    (32 <= b && b < 127) || b == 9
}

/// The bytes of `Bearer ` (with its trailing space).
pub open spec fn bearer_prefix() -> Seq<u8> {
    seq![66u8, 101u8, 97u8, 114u8, 101u8, 114u8, 32u8]
}

/// The characters of ASCII bytes.
pub open spec fn ascii_text(bytes: Seq<u8>) -> Seq<char> {
    Seq::new(bytes.len(), |i: int| bytes[i] as char)
}

/// The token of an `Authorization` header value: the header must be text
/// (only visible ASCII and tabs, as `HeaderValue::to_str` requires) and begin
/// with `Bearer `; the token is the rest.
pub open spec fn bearer_token_of(header: Option<Seq<u8>>) -> Option<Seq<char>> {
    match header {
        None => None,
        Some(h) => if (forall|i: int| 0 <= i < h.len() ==> is_visible_ascii(#[trigger] h[i]))
            && h.len() >= 7 && h.subrange(0, 7) == bearer_prefix() {
            Some(ascii_text(h.subrange(7, h.len() as int)))
        } else {
            None
        },
    }
}

/// The bytes of an optional header value.
pub open spec fn opt_bytes(o: Option<Vec<u8>>) -> Option<Seq<u8>> {
    match o {
        Some(v) => Some(v@),
        None => None,
    }
}

/// The token that an `Authorization` header value carries, if any.
pub fn bearer_token(header: Option<Vec<u8>>) -> (r: Option<String>)
    ensures
        opt_text(r) == bearer_token_of(opt_bytes(header)),
{
    let h = match header {
        Some(h) => h,
        None => return None,
    };
    let n: usize = h.len();
    let mut i: usize = 0;
    while i < n
        invariant
            n == h@.len(),
            opt_bytes(header) == Some(h@),
            i <= n,
            forall|j: int| 0 <= j < i ==> is_visible_ascii(#[trigger] h@[j]),
        decreases n - i,
    {
        let b: u8 = h[i];
        if !((32 <= b && b < 127) || b == 9) {
            assert(!is_visible_ascii(h@[i as int]));
            return None;
        }
        i = i + 1;
    }
    if n < 7 || h[0] != 66 || h[1] != 101 || h[2] != 97 || h[3] != 114 || h[4] != 101 || h[5] != 114
        || h[6] != 32 {
        assert(n >= 7 ==> h@.subrange(0, 7) != bearer_prefix()) by {
            if n >= 7 && h@.subrange(0, 7) == bearer_prefix() {
                assert(h@.subrange(0, 7)[0] == h@[0]);
                assert(h@.subrange(0, 7)[1] == h@[1]);
                assert(h@.subrange(0, 7)[2] == h@[2]);
                assert(h@.subrange(0, 7)[3] == h@[3]);
                assert(h@.subrange(0, 7)[4] == h@[4]);
                assert(h@.subrange(0, 7)[5] == h@[5]);
                assert(h@.subrange(0, 7)[6] == h@[6]);
            }
        }
        return None;
    }
    assert(h@.subrange(0, 7) =~= bearer_prefix());
    let mut token = String::new();
    let mut k: usize = 7;
    while k < n
        invariant
            n == h@.len(),
            7 <= k <= n,
            token@ =~= ascii_text(h@.subrange(7, k as int)),
        decreases n - k,
    {
        push_char(&mut token, h[k] as char);
        k = k + 1;
        assert(ascii_text(h@.subrange(7, k as int)) =~= ascii_text(h@.subrange(7, k - 1)).push(
            h@[k - 1] as char,
        ));
    }
    Some(token)
}

/// The first decision on a request to a protected route: decode its bearer
/// token, or refuse it when there is none.
pub fn authorization_step(token: Option<String>) -> (r: AuthStep)
    ensures
        match token {
            Some(t) => r == AuthStep::Decode(t),
            None => r == AuthStep::Refuse(AuthRejection::MissingToken),
        },
{
    match token {
        Some(t) => AuthStep::Decode(t),
        None => AuthStep::Refuse(AuthRejection::MissingToken),
    }
}

/// The decision on a bearer token: it is decoded with the server's secret at
/// the current time; its claims are handed on to the route, and a token that
/// does not verify or has expired is refused. `None` where the token verifies
/// but the clock cannot be read to check its expiry.
pub fn authorization_result(token: &str, secret: &[u8]) -> (r: Option<Result<Claims, AuthRejection>>)
    ensures
        match r {
            None => hs256_claims(token@, secret@) is Some,
            Some(Ok(c)) => exists|now: u64| #[trigger] decodes_to(token@, secret@, now, c.sub@, c.exp),
            Some(Err(e)) => e == AuthRejection::Unauthorized && match hs256_claims(token@, secret@) {
                None => true,
                Some((_, exp)) => exists|now: u64| #[trigger] expired(exp, now),
            },
        },
        hs256_claims(token@, secret@) is None ==> r == Some(Err::<Claims, AuthRejection>(AuthRejection::Unauthorized)),
{
    proof {
        reveal_strlit("system time before Unix epoch");
        reveal_strlit("InvalidToken");
        reveal_strlit("ExpiredSignature");
        assert("InvalidToken"@.len() != "system time before Unix epoch"@.len());
        assert("ExpiredSignature"@.len() != "system time before Unix epoch"@.len());
    }
    let decoded = decode_jwt(token, secret);
    let ghost mut when: u64 = 0;
    let r: Option<Result<Claims, AuthRejection>> = match decoded {
        Ok(c) => {
            proof {
                when = choose|now: u64| #[trigger] decodes_to(token@, secret@, now, c.sub@, c.exp);
            }
            Some(Ok(Claims { sub: c.sub, exp: c.exp }))
        },
        Err(e) => {
            if same_text(e.message.as_str(), "system time before Unix epoch") {
                None
            } else {
                Some(Err(AuthRejection::Unauthorized))
            }
        },
    };
    assert(r matches Some(Ok(c)) ==> decodes_to(token@, secret@, when, c.sub@, c.exp));
    r
}

impl AuthRejection {
    /// The text a refusal is answered with.
    pub open spec fn message_text(self) -> Seq<char> {
        match self {
            AuthRejection::MissingToken => "Authorization token missing"@,
            AuthRejection::Unauthorized => "Unauthorized Access."@,
        }
    }

    /// The HTTP status of a refusal: 401 Unauthorized.
    pub fn status(&self) -> (r: u16)
        ensures
            r == 401,
    {
        401
    }

    /// The JSON body of a refusal.
    pub fn body(&self) -> (r: ErrorResponse)
        ensures
            r.message@ == self.message_text(),
    {
        match self {
            AuthRejection::MissingToken => ErrorResponse { message: text("Authorization token missing") },
            AuthRejection::Unauthorized => ErrorResponse { message: text("Unauthorized Access.") },
        }
    }
}

} // verus!
