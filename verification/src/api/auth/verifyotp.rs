//! Checking a one-time code against the authenticator entry a user enrolled.

use vstd::prelude::*;
use crate::api::auth::activatemfa::{
    enrols_fresh_secret, mfa_accepts, mfa_entry_accepted, mfa_qr, mfa_settings, Enrolment, MFA_DIGITS, MFA_SKEW,
    MFA_STEP,
};
use crate::utils::otp::base32_padded;
use crate::api::body::{json_member_text, member_text};
use crate::utils::otp::{check_code, current_time, decode_secret, rfc4648_decode, totp_code_valid, TotpAlgorithm};
use crate::utils::text::text;

verus! {

/// The user whose code is checked, with the stored secret text.
pub struct Users {
    pub username: String,
    pub email: String,
    pub secret: String,
}

/// What a code check is answered.
pub enum OtpReply {
    /// The user could not be read.
    LookupFailed,
    /// The stored secret is not padded base32 text.
    InvalidSecret,
    /// The code is valid.
    Verified { username: String },
    /// The code is not valid.
    InvalidCode,
}

impl OtpReply {
    /// The text the reply carries.
    pub open spec fn message_text(self) -> Seq<char> {
        match self {
            OtpReply::LookupFailed => "Internal server error: Database access failed."@,
            OtpReply::InvalidSecret => "Internal server error: Invalid secret format."@,
            OtpReply::Verified { .. } => "OTP code has verified successfully."@,
            OtpReply::InvalidCode => "Invalid OTP code, please try again."@,
        }
    }

    /// The HTTP status code of the reply.
    pub open spec fn status_code(self) -> u16 {
        match self {
            OtpReply::LookupFailed => 500,
            OtpReply::InvalidSecret => 500,
            OtpReply::Verified { .. } => 200,
            OtpReply::InvalidCode => 409,
        }
    }

    /// The HTTP status: 500 where the user or the secret cannot be read,
    /// 200 for a valid code, 409 Conflict for an invalid one.
    pub fn status(&self) -> (r: u16)
        ensures
            r == self.status_code(),
    {
        match self {
            OtpReply::LookupFailed => 500,
            OtpReply::InvalidSecret => 500,
            OtpReply::Verified { .. } => 200,
            OtpReply::InvalidCode => 409,
        }
    }

    /// The text the reply carries.
    pub fn message(&self) -> (r: String)
        ensures
            r@ == self.message_text(),
    {
        match self {
            OtpReply::LookupFailed => text("Internal server error: Database access failed."),
            OtpReply::InvalidSecret => text("Internal server error: Invalid secret format."),
            OtpReply::Verified { .. } => text("OTP code has verified successfully."),
            OtpReply::InvalidCode => text("Invalid OTP code, please try again."),
        }
    }
}

/// The code to check: the JSON text of the member `otp` of the request body
/// (a number such as `123456` is its digits; a JSON string keeps its quotes
/// and so never matches). `None` where the body is not JSON.
pub fn otp_code(body: &str) -> (r: Option<String>)
    ensures
        match r {
            Some(t) => json_member_text(body@, "otp"@) == Some(t@),
            None => json_member_text(body@, "otp"@) is None,
        },
{
    member_text(body, "otp")
}

/// Whether a user's entry with this secret accepts `code` at `time`: in the
/// time step `time / MFA_STEP`.
pub open spec fn mfa_code_valid(secret: Seq<u8>, code: Seq<char>, time: u64) -> bool {
    totp_code_valid(TotpAlgorithm::Sha1, MFA_DIGITS, MFA_SKEW, MFA_STEP, secret, code, time / MFA_STEP)
}

/// The times at which a check stays inside the clock's range: at least one
/// step after the epoch, and one step before the end of `u64`.
pub open spec fn checkable_time(time: u64) -> bool {
    MFA_STEP <= time && time <= u64::MAX - MFA_STEP
}

/// The answer to a code check at `time` for a user read from the store;
/// `None` where the user's authenticator entry cannot be built from the
/// decoded secret (too short, or a `:` in the email).
pub open spec fn otp_outcome(user: Users, code: Seq<char>, time: u64) -> Option<OtpReply> {
    match rfc4648_decode(true, user.secret@) {
        None => Some(OtpReply::InvalidSecret),
        Some(secret) => if !mfa_accepts(user.email@, secret) {
            None
        } else if mfa_code_valid(secret, code, time) {
            Some(OtpReply::Verified { username: user.username })
        } else {
            Some(OtpReply::InvalidCode)
        },
    }
}

/// Checks `code` at `time` against the entry of `user`.
pub fn verify_otp_at(user: Users, code: &str, time: u64) -> (r: Option<OtpReply>)
    requires
        checkable_time(time),
    ensures
        r == otp_outcome(user, code@, time),
{
    let secret = match decode_secret(user.secret.as_str()) {
        Some(b) => b,
        None => return Some(OtpReply::InvalidSecret),
    };
    let settings = mfa_settings(user.email.as_str());
    match check_code(settings, secret, code, time) {
        None => None,
        Some(true) => Some(OtpReply::Verified { username: user.username }),
        Some(false) => Some(OtpReply::InvalidCode),
    }
}

/// Checks `code` against the entry of `user` at the current time. A stored
/// secret that is not padded base32 is answered without reading the clock;
/// `None` where the entry cannot be built, or where the clock is before the
/// epoch or outside the range in which a check can be computed.
pub fn verify_otp(user: Users, code: &str) -> (r: Option<OtpReply>)
    ensures
        rfc4648_decode(true, user.secret@) is None ==> r == Some(OtpReply::InvalidSecret),
        (rfc4648_decode(true, user.secret@) matches Some(secret) && !mfa_accepts(user.email@, secret))
            ==> r is None,
        r matches Some(reply) ==> exists|time: u64|
            checkable_time(time) && #[trigger] otp_outcome(user, code@, time) == Some(reply),
        r is None ==> rfc4648_decode(true, user.secret@) is Some,
{
    let secret = match decode_secret(user.secret.as_str()) {
        Some(b) => b,
        None => {
            assert(otp_outcome(user, code@, MFA_STEP) == Some(OtpReply::InvalidSecret));
            assert(checkable_time(MFA_STEP));
            return Some(OtpReply::InvalidSecret);
        },
    };
    if !mfa_entry_accepted(user.email.as_str(), &secret) {
        return None;
    }
    let time: u64 = match current_time() {
        Some(t) => t,
        None => return None,
    };
    if time < MFA_STEP || time > u64::MAX - MFA_STEP {
        return None;
    }
    verify_otp_at(user, code, time)
}

/// Where a code check stands.
pub enum OtpState {
    /// The user is being read; the code to check.
    LoadingUser(String),
    /// The request has been answered.
    Done,
}

/// What the server reports back: the user, or `None` where reading failed.
pub enum OtpEvent {
    Loaded(Option<Users>),
}

/// What a code check asks the server to do next.
pub enum OtpAction {
    /// Read the user with the stored secret.
    LoadUser,
    /// The body is not JSON, the entry cannot be built or the clock cannot be
    /// used; the request cannot be served.
    Fail,
    /// Answer the request.
    Answer(OtpReply),
}

/// A code check begins by reading the code from the body and the user.
pub fn otp_start(body: &str) -> (r: (OtpState, OtpAction))
    ensures
        match json_member_text(body@, "otp"@) {
            None => r == (OtpState::Done, OtpAction::Fail),
            Some(t) => r.1 == OtpAction::LoadUser && (r.0 matches OtpState::LoadingUser(c) && c@ == t),
        },
{
    match otp_code(body) {
        None => (OtpState::Done, OtpAction::Fail),
        Some(code) => (OtpState::LoadingUser(code), OtpAction::LoadUser),
    }
}

/// The next state and action of a code check, given the user read: the
/// code is checked at the current time.
pub fn otp_step(state: OtpState, event: OtpEvent) -> (r: (OtpState, OtpAction))
    requires
        state is LoadingUser,
    ensures
        r.0 == OtpState::Done,
        match state {
            OtpState::LoadingUser(code) => match event {
                OtpEvent::Loaded(None) => r.1 == OtpAction::Answer(OtpReply::LookupFailed),
                OtpEvent::Loaded(Some(u)) => {
                    &&& r.1 == OtpAction::Fail || (r.1 matches OtpAction::Answer(reply)
                        && exists|time: u64| checkable_time(time) && #[trigger] otp_outcome(u, code@, time)
                        == Some(reply))
                    &&& (rfc4648_decode(true, u.secret@) matches Some(secret) && !mfa_accepts(u.email@, secret))
                        ==> r.1 == OtpAction::Fail
                    &&& rfc4648_decode(true, u.secret@) is None ==> r.1 == OtpAction::Answer(OtpReply::InvalidSecret)
                    &&& r.1 == OtpAction::Fail ==> rfc4648_decode(true, u.secret@) is Some
                },
            },
            OtpState::Done => false,
        },
{
    match state {
        OtpState::LoadingUser(code) => match event {
            OtpEvent::Loaded(None) => (OtpState::Done, OtpAction::Answer(OtpReply::LookupFailed)),
            OtpEvent::Loaded(Some(u)) => match verify_otp(u, code.as_str()) {
                Some(reply) => (OtpState::Done, OtpAction::Answer(reply)),
                None => (OtpState::Done, OtpAction::Fail),
            },
        },
        OtpState::Done => (OtpState::Done, OtpAction::Fail),
    }
}

/// A check reads the time only through its time step: two checks of one
/// code for one user within the same step of `MFA_STEP` seconds are answered
/// alike, so a code that was accepted is accepted again in its step.
pub proof fn codes_agree_within_a_step(user: Users, code: Seq<char>, t1: u64, t2: u64)
    requires
        t1 / MFA_STEP == t2 / MFA_STEP,
    ensures
        otp_outcome(user, code, t1) == otp_outcome(user, code, t2),
{
}

/// The roundtrip of an enrolment: a user whose stored secret text decodes to
/// `secret`, with which the entry can be built, is verified at any time
/// exactly when the authenticator entry with `secret` accepts the code.
pub proof fn enrolled_secret_checks_codes(user: Users, secret: Seq<u8>, code: Seq<char>, time: u64)
    requires
        rfc4648_decode(true, user.secret@) == Some(secret),
        mfa_accepts(user.email@, secret),
    ensures
        mfa_code_valid(secret, code, time) ==> otp_outcome(user, code, time) == Some(
            (OtpReply::Verified { username: user.username }),
        ),
        !mfa_code_valid(secret, code, time) ==> otp_outcome(user, code, time) == Some(
            OtpReply::InvalidCode,
        ),
{
}

/// What an activation stores is what a code check reads: for a user whose
/// stored secret text is that of an enrolment made for the user's email,
/// there is one secret of 160 bits whose QR code the enrolment shows, and
/// at every time a code is verified exactly when the entry with that secret
/// accepts it, and refused otherwise.
pub proof fn activation_enrols_the_checked_secret(m: Enrolment, user: Users)
    requires
        enrols_fresh_secret(user.email@, m),
        user.secret@ == m.secret@,
    ensures
        exists|s: Seq<u8>|
            #![trigger base32_padded(s)]
            {
                &&& s.len() == 20
                &&& mfa_qr(user.email@, s) == Ok::<Seq<char>, Seq<char>>(m.qrcodeurl@)
                &&& m.secret@ == base32_padded(s)
                &&& forall|code: Seq<char>, time: u64|
                    #[trigger] otp_outcome(user, code, time) == if mfa_code_valid(s, code, time) {
                        Some(OtpReply::Verified { username: user.username })
                    } else {
                        Some(OtpReply::InvalidCode)
                    }
            },
{
    let s = choose|s: Seq<u8>|
        #![trigger base32_padded(s)]
        s.len() == 20 && mfa_accepts(user.email@, s) && mfa_qr(user.email@, s) == Ok::<Seq<char>, Seq<char>>(m.qrcodeurl@)
            && m.secret@ == base32_padded(s) && rfc4648_decode(true, m.secret@) == Some(s);
    assert(m.secret@ == base32_padded(s));
}

} // verus!
