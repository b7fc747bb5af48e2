//! Turning multi-factor authentication on and off for a user.
//!
//! Turning it on draws a fresh TOTP secret, renders the QR code that enrols it
//! in an authenticator app, and stores the QR code and the secret (as padded
//! base32 text) with the user; turning it off clears both.

use vstd::prelude::*;
use crate::api::body::{json_member_text, member_text};
use crate::utils::otp::{
    base32_padded, encode_secret, new_totp_secret, qr_code, rfc4648_decode, totp_accepted,
    totp_qr_base64, TotpAlgorithm, TotpSettings,
};
use crate::utils::text::{contains_char, same_text, text};

verus! {

/// The user whose multi-factor authentication is turned on.
pub struct Users {
    pub username: String,
    pub email: String,
}

/// The codes of the service's authenticator entries: HMAC-SHA1, 6 digits,
/// one step of drift either way, 30-second steps.
pub const MFA_DIGITS: usize = 6;
pub const MFA_SKEW: u8 = 1;
pub const MFA_STEP: u64 = 30;

/// The issuer under which the entry appears in the authenticator app.
pub open spec fn mfa_issuer() -> Seq<char> {
    "SUPERCAR INC."@
}

/// The TOTP settings of a user's authenticator entry, named after the email.
pub fn mfa_settings(email: &str) -> (s: TotpSettings)
    ensures
        s.algorithm == TotpAlgorithm::Sha1,
        s.digits == MFA_DIGITS,
        s.skew == MFA_SKEW,
        s.step == MFA_STEP,
        s.issuer matches Some(i) && i@ == mfa_issuer(),
        s.account@ == email@,
{
    TotpSettings {
        algorithm: TotpAlgorithm::Sha1,
        digits: MFA_DIGITS,
        skew: MFA_SKEW,
        step: MFA_STEP,
        issuer: Some(text("SUPERCAR INC.")),
        account: text(email),
    }
}

/// Whether a user's authenticator entry can be built with `secret`.
pub open spec fn mfa_accepts(email: Seq<char>, secret: Seq<u8>) -> bool {
    totp_accepted(MFA_DIGITS, secret, Some(mfa_issuer()), email)
}

/// Whether a user's authenticator entry can be built with `secret`: the
/// secret has at least 128 bits and the email holds no `:` (the digits and
/// the issuer always pass).
pub fn mfa_entry_accepted(email: &str, secret: &Vec<u8>) -> (r: bool)
    ensures
        r == mfa_accepts(email@, secret@),
{
    proof {
        reveal_strlit("SUPERCAR INC.");
        assert(!mfa_issuer().contains(':'));
    }
    secret.len() >= 16 && !contains_char(email, ':')
}

/// The QR code answer for a user's entry with `secret`.
pub open spec fn mfa_qr(email: Seq<char>, secret: Seq<u8>) -> Result<Seq<char>, Seq<char>> {
    totp_qr_base64(TotpAlgorithm::Sha1, MFA_DIGITS, MFA_SKEW, MFA_STEP, secret, Some(mfa_issuer()), email)
}

/// What an activation stores with the user: the QR code image (base64 PNG)
/// and the secret as padded base32 text.
pub struct Enrolment {
    pub qrcodeurl: String,
    pub secret: String,
}

/// What a request to turn multi-factor authentication on or off is answered.
pub enum MfaReply {
    /// Turned on; the QR code to scan.
    Enabled { qrcodeurl: String },
    /// Turning on changed no row.
    EnableFailed,
    /// Turned off.
    Disabled,
    /// Turning off changed no row.
    DisableFailed,
}

impl MfaReply {
    /// The text the reply carries.
    pub open spec fn message_text(self) -> Seq<char> {
        match self {
            MfaReply::Enabled { .. } => "Multi-Factor Authenticator has been anabled"@,
            MfaReply::EnableFailed => "Unable to enable MFA."@,
            MfaReply::Disabled => "Multi-Factor Authenticator has been disabled."@,
            MfaReply::DisableFailed => "Unable to disable MFA."@,
        }
    }

    /// The HTTP status: 200 OK in every case.
    pub fn status(&self) -> (r: u16)
        ensures
            r == 200,
    {
        200
    }

    /// The text the reply carries.
    pub fn message(&self) -> (r: String)
        ensures
            r@ == self.message_text(),
    {
        match self {
            MfaReply::Enabled { .. } => text("Multi-Factor Authenticator has been anabled"),
            MfaReply::EnableFailed => text("Unable to enable MFA."),
            MfaReply::Disabled => text("Multi-Factor Authenticator has been disabled."),
            MfaReply::DisableFailed => text("Unable to disable MFA."),
        }
    }
}

/// Whether the request body asks to turn multi-factor authentication on: its
/// member `TwoFactorEnabled` is the JSON value `true` (the only value whose
/// JSON text is `true`). `None` where the body is not JSON.
pub fn mfa_requested(body: &str) -> (r: Option<bool>)
    ensures
        match json_member_text(body@, "TwoFactorEnabled"@) {
            Some(t) => r == Some(t == "true"@),
            None => r is None,
        },
{
    match member_text(body, "TwoFactorEnabled") {
        Some(t) => Some(same_text(t.as_str(), "true")),
        None => None,
    }
}

/// Why an activation cannot be served.
pub enum MfaFailure {
    /// The request body is not JSON.
    InvalidBody,
    /// The operating system's random source failed to give a secret.
    RandomUnavailable,
    /// The authenticator entry cannot be built: the email holds a `:`.
    EntryRejected,
    /// The QR code could not be rendered; the error text.
    QrFailed(String),
}

/// The enrolment of a user's entry with a given secret: the QR code and the
/// padded base32 text of the secret, or why it cannot be made.
pub fn enrolment_with(secret: Vec<u8>, email: &str) -> (r: Result<Enrolment, MfaFailure>)
    ensures
        match r {
            Ok(m) => mfa_accepts(email@, secret@) && mfa_qr(email@, secret@) == Ok::<Seq<char>, Seq<char>>(
                m.qrcodeurl@,
            ) && m.secret@ == base32_padded(secret@) && rfc4648_decode(true, m.secret@) == Some(secret@),
            Err(MfaFailure::EntryRejected) => !mfa_accepts(email@, secret@),
            Err(MfaFailure::QrFailed(e)) => mfa_accepts(email@, secret@) && mfa_qr(email@, secret@)
                == Err::<Seq<char>, Seq<char>>(e@),
            Err(_) => false,
        },
{
    let encoded = encode_secret(secret.as_slice());
    match qr_code(mfa_settings(email), secret) {
        Some(Ok(q)) => Ok(Enrolment { qrcodeurl: q, secret: encoded }),
        Some(Err(e)) => Err(MfaFailure::QrFailed(e)),
        None => Err(MfaFailure::EntryRejected),
    }
}

/// Whether `m` enrols a user with `email` with some secret of 160 bits: its
/// QR code is that of the entry with the secret, and its stored text decodes
/// to the secret.
pub open spec fn enrols_fresh_secret(email: Seq<char>, m: Enrolment) -> bool {
    exists|s: Seq<u8>|
        #![trigger base32_padded(s)]
        s.len() == 20 && mfa_accepts(email, s) && mfa_qr(email, s) == Ok::<Seq<char>, Seq<char>>(m.qrcodeurl@)
            && m.secret@ == base32_padded(s) && rfc4648_decode(true, m.secret@) == Some(s)
}

/// Whether `e` is the error text of the QR code of the entry of a user with
/// `email` and some secret of 160 bits.
pub open spec fn qr_fails_for_fresh_secret(email: Seq<char>, e: Seq<char>) -> bool {
    exists|s: Seq<u8>|
        #![trigger mfa_qr(email, s)]
        s.len() == 20 && mfa_accepts(email, s) && mfa_qr(email, s) == Err::<Seq<char>, Seq<char>>(e)
}

/// The enrolment of a user's entry with a fresh random secret of 160 bits.
/// An email with a `:` is refused before a secret is drawn; otherwise the
/// enrolment fails only where the random source fails or the QR code of the
/// drawn secret cannot be rendered.
pub fn new_enrolment(user: &Users) -> (r: Result<Enrolment, MfaFailure>)
    ensures
        user.email@.contains(':') <==> r matches Err(MfaFailure::EntryRejected),
        match r {
            Ok(m) => enrols_fresh_secret(user.email@, m),
            Err(MfaFailure::QrFailed(e)) => qr_fails_for_fresh_secret(user.email@, e@),
            Err(MfaFailure::InvalidBody) => false,
            Err(_) => true,
        },
{
    proof {
        reveal_strlit("SUPERCAR INC.");
        assert(!mfa_issuer().contains(':'));
    }
    if contains_char(user.email.as_str(), ':') {
        return Err(MfaFailure::EntryRejected);
    }
    let secret = match new_totp_secret() {
        Some(b) => b,
        None => return Err(MfaFailure::RandomUnavailable),
    };
    let ghost s = secret@;
    assert(mfa_accepts(user.email@, s));
    let r = enrolment_with(secret, user.email.as_str());
    proof {
        if r is Ok {
            assert(r->Ok_0.secret@ == base32_padded(s));
        }
        if r is Err && r->Err_0 is QrFailed {
            assert(mfa_qr(user.email@, s) == Err::<Seq<char>, Seq<char>>(r->Err_0->QrFailed_0@));
        }
    }
    r
}

/// The answer once the enrolment has been stored: enabled where a row changed.
pub fn enabled_reply(rows_affected: u64, qrcodeurl: String) -> (r: MfaReply)
    ensures
        rows_affected > 0 ==> r == (MfaReply::Enabled { qrcodeurl }),
        rows_affected == 0 ==> r == MfaReply::EnableFailed,
{
    if rows_affected > 0 {
        MfaReply::Enabled { qrcodeurl }
    } else {
        MfaReply::EnableFailed
    }
}

/// The answer once the enrolment has been cleared: disabled where a row changed.
pub fn disabled_reply(rows_affected: u64) -> (r: MfaReply)
    ensures
        rows_affected > 0 ==> r == MfaReply::Disabled,
        rows_affected == 0 ==> r == MfaReply::DisableFailed,
{
    if rows_affected > 0 {
        MfaReply::Disabled
    } else {
        MfaReply::DisableFailed
    }
}

/// Where a request to turn multi-factor authentication on or off stands.
pub enum MfaState {
    /// The user is being read.
    LoadingUser,
    /// The enrolment is being stored; its QR code.
    Storing(String),
    /// The enrolment is being cleared.
    Clearing,
    /// The request has been answered.
    Done,
}

/// What the server reports back.
pub enum MfaEvent {
    /// The user that is turning it on.
    Loaded(Users),
    /// The number of rows that storing the enrolment changed.
    Stored(u64),
    /// The number of rows that clearing the enrolment changed.
    Cleared(u64),
}

/// What the request asks the server to do next.
pub enum MfaAction {
    /// Read the user.
    LoadUser,
    /// Store this enrolment with the user.
    Store(Enrolment),
    /// Clear the user's enrolment.
    Clear,
    /// The request cannot be served, for this reason.
    Fail(MfaFailure),
    /// Answer the request.
    Answer(MfaReply),
}

/// Whether an event answers the action of a state.
pub open spec fn mfa_event_fits(state: MfaState, event: MfaEvent) -> bool {
    match state {
        MfaState::LoadingUser => event is Loaded,
        MfaState::Storing(_) => event is Stored,
        MfaState::Clearing => event is Cleared,
        MfaState::Done => false,
    }
}

/// A request begins by reading its body: turning on reads the user,
/// turning off clears the enrolment.
pub fn mfa_start(body: &str) -> (r: (MfaState, MfaAction))
    ensures
        match json_member_text(body@, "TwoFactorEnabled"@) {
            None => r == (MfaState::Done, MfaAction::Fail(MfaFailure::InvalidBody)),
            Some(t) => if t == "true"@ {
                r == (MfaState::LoadingUser, MfaAction::LoadUser)
            } else {
                r == (MfaState::Clearing, MfaAction::Clear)
            },
        },
{
    match mfa_requested(body) {
        None => (MfaState::Done, MfaAction::Fail(MfaFailure::InvalidBody)),
        Some(true) => (MfaState::LoadingUser, MfaAction::LoadUser),
        Some(false) => (MfaState::Clearing, MfaAction::Clear),
    }
}

/// The next state and action, given what the server reports.
pub fn mfa_step(state: MfaState, event: MfaEvent) -> (r: (MfaState, MfaAction))
    requires
        mfa_event_fits(state, event),
    ensures
        match state {
            MfaState::LoadingUser => match event {
                MfaEvent::Loaded(u) => if u.email@.contains(':') {
                    r == (MfaState::Done, MfaAction::Fail(MfaFailure::EntryRejected))
                } else {
                    ||| (r.1 matches MfaAction::Store(m) && r.0 == MfaState::Storing(m.qrcodeurl)
                        && enrols_fresh_secret(u.email@, m))
                    ||| r == (MfaState::Done, MfaAction::Fail(MfaFailure::RandomUnavailable))
                    ||| (r.0 == MfaState::Done && (r.1 matches MfaAction::Fail(MfaFailure::QrFailed(e))
                        && qr_fails_for_fresh_secret(u.email@, e@)))
                },
                _ => false,
            },
            MfaState::Storing(q) => match event {
                MfaEvent::Stored(rows) => if rows > 0 {
                    r == (MfaState::Done, MfaAction::Answer((MfaReply::Enabled { qrcodeurl: q })))
                } else {
                    r == (MfaState::Done, MfaAction::Answer(MfaReply::EnableFailed))
                },
                _ => false,
            },
            MfaState::Clearing => match event {
                MfaEvent::Cleared(rows) => if rows > 0 {
                    r == (MfaState::Done, MfaAction::Answer(MfaReply::Disabled))
                } else {
                    r == (MfaState::Done, MfaAction::Answer(MfaReply::DisableFailed))
                },
                _ => false,
            },
            MfaState::Done => false,
        },
{
    match state {
        MfaState::LoadingUser => match event {
            MfaEvent::Loaded(u) => match new_enrolment(&u) {
                Ok(m) => {
                    let q = m.qrcodeurl.clone();
                    (MfaState::Storing(q), MfaAction::Store(m))
                },
                Err(e) => (MfaState::Done, MfaAction::Fail(e)),
            },
            _ => (MfaState::Done, MfaAction::Fail(MfaFailure::InvalidBody)),
        },
        MfaState::Storing(q) => match event {
            MfaEvent::Stored(rows) => (MfaState::Done, MfaAction::Answer(enabled_reply(rows, q))),
            _ => (MfaState::Done, MfaAction::Fail(MfaFailure::InvalidBody)),
        },
        MfaState::Clearing => match event {
            MfaEvent::Cleared(rows) => (MfaState::Done, MfaAction::Answer(disabled_reply(rows))),
            _ => (MfaState::Done, MfaAction::Fail(MfaFailure::InvalidBody)),
        },
        MfaState::Done => (MfaState::Done, MfaAction::Fail(MfaFailure::InvalidBody)),
    }
}

} // verus!
