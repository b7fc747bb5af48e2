//! Time-based one-time passwords (TOTP) and the base32 text in which their
//! secrets are stored.

use vstd::prelude::*;

verus! {

/// The HMAC hash of a TOTP generator.
#[derive(Clone, Copy, PartialEq, Eq, Structural, Debug)]
pub enum TotpAlgorithm {
    Sha1,
    Sha256,
    Sha512,
}

/// The settings of a TOTP generator besides its secret.
pub struct TotpSettings {
    pub algorithm: TotpAlgorithm,
    /// Number of digits of a code.
    pub digits: usize,
    /// Number of steps before and after the current one whose codes are also accepted.
    pub skew: u8,
    /// Duration of a step, in seconds.
    pub step: u64,
    /// The service the codes are for.
    pub issuer: Option<String>,
    /// The user's account at that service.
    pub account: String,
}

/// The characters of an optional string.
pub open spec fn opt_text(o: Option<String>) -> Option<Seq<char>> {
    match o {
        Some(s) => Some(s@),
        None => None,
    }
}

/// When `totp_rs::TOTP::new` accepts its arguments: 6 to 8 digits, a secret of
/// at least 128 bits, and no `:` in the issuer or the account name.
pub open spec fn totp_accepted(digits: usize, secret: Seq<u8>, issuer: Option<Seq<char>>, account: Seq<char>) -> bool {
    &&& 6 <= digits <= 8
    &&& secret.len() >= 16
    &&& (issuer matches Some(i) ==> !i.contains(':'))
    &&& !account.contains(':')
}

/// `totp_accepted` for these settings.
pub open spec fn settings_accept(settings: TotpSettings, secret: Seq<u8>) -> bool {
    totp_accepted(settings.digits, secret, opt_text(settings.issuer), settings.account@)
}

/// Whether `TOTP::check` accepts `code` in the time step `counter` (the time
/// divided by the step) for a generator with these settings and secret. The
/// issuer and account do not enter the codes, and `check` reads its time only
/// through that quotient: it compares the code with those that `generate`
/// makes for the steps around it, and `generate` signs the time divided by the
/// step.
pub uninterp spec fn totp_code_valid(
    algorithm: TotpAlgorithm,
    digits: usize,
    skew: u8,
    step: u64,
    secret: Seq<u8>,
    code: Seq<char>,
    counter: u64,
) -> bool;

/// What `TOTP::get_qr_base64` answers for a generator: the base64 text of a
/// PNG image of the QR code of its `otpauth://` URL, or the text of an error.
pub uninterp spec fn totp_qr_base64(
    algorithm: TotpAlgorithm,
    digits: usize,
    skew: u8,
    step: u64,
    secret: Seq<u8>,
    issuer: Option<Seq<char>>,
    account: Seq<char>,
) -> Result<Seq<char>, Seq<char>>;

/// What `base32::decode` answers for the RFC 4648 alphabet (upper case) with
/// the given padding setting.
pub uninterp spec fn rfc4648_decode(padding: bool, text: Seq<char>) -> Option<Seq<u8>>;

/// What `data_encoding::BASE32.encode` writes: RFC 4648 base32 with padding.
pub uninterp spec fn base32_padded(bytes: Seq<u8>) -> Seq<char>;

/// Whether a check at `time` stays inside `u64` for these settings: `check`
/// computes the steps from `time / step - skew` to `time / step + skew`
/// and multiplies each by `step`.
pub open spec fn check_time_in_range(settings: TotpSettings, time: u64) -> bool {
    &&& settings.step > 0
    &&& settings.skew as u64 <= time / settings.step
    &&& time as int + settings.skew as int * settings.step as int <= u64::MAX as int
}

/// Builds a generator with `totp_rs::TOTP::new` and, where it is accepted,
/// answers `TOTP::check(code, time)`. `new` fails exactly when
/// `totp_accepted` does not hold (its validation in the source); `check` is
/// deterministic, depends on `time` only through `time / step`, and is named
/// by `totp_code_valid`.
#[verifier::external_body]
fn totp_check(settings: TotpSettings, secret: Vec<u8>, code: &str, time: u64) -> (r: Option<bool>)
    requires
        check_time_in_range(settings, time),
    ensures
        match r {
            Some(b) => settings_accept(settings, secret@) && b == totp_code_valid(
                settings.algorithm,
                settings.digits,
                settings.skew,
                settings.step,
                secret@,
                code@,
                time / settings.step,
            ),
            None => !settings_accept(settings, secret@),
        },
{
    let algorithm = match settings.algorithm {
        TotpAlgorithm::Sha1 => totp_rs::Algorithm::SHA1,
        TotpAlgorithm::Sha256 => totp_rs::Algorithm::SHA256,
        TotpAlgorithm::Sha512 => totp_rs::Algorithm::SHA512,
    };
    match totp_rs::TOTP::new(algorithm, settings.digits, settings.skew, settings.step, secret, settings.issuer, settings.account) {
        Ok(totp) => Some(totp.check(code, time)),
        Err(_) => None,
    }
}

/// Builds a generator with `totp_rs::TOTP::new` and, where it is accepted,
/// answers `TOTP::get_qr_base64()`, named by `totp_qr_base64` (the URL, the
/// QR code and its PNG encoding are computed from the settings and secret).
#[verifier::external_body]
fn totp_qr(settings: TotpSettings, secret: Vec<u8>) -> (r: Option<Result<String, String>>)
    ensures
        match r {
            Some(Ok(q)) => settings_accept(settings, secret@) && totp_qr_base64(
                settings.algorithm,
                settings.digits,
                settings.skew,
                settings.step,
                secret@,
                opt_text(settings.issuer),
                settings.account@,
            ) == Ok::<Seq<char>, Seq<char>>(q@),
            Some(Err(e)) => settings_accept(settings, secret@) && totp_qr_base64(
                settings.algorithm,
                settings.digits,
                settings.skew,
                settings.step,
                secret@,
                opt_text(settings.issuer),
                settings.account@,
            ) == Err::<Seq<char>, Seq<char>>(e@),
            None => !settings_accept(settings, secret@),
        },
{
    let algorithm = match settings.algorithm {
        TotpAlgorithm::Sha1 => totp_rs::Algorithm::SHA1,
        TotpAlgorithm::Sha256 => totp_rs::Algorithm::SHA256,
        TotpAlgorithm::Sha512 => totp_rs::Algorithm::SHA512,
    };
    match totp_rs::TOTP::new(algorithm, settings.digits, settings.skew, settings.step, secret, settings.issuer, settings.account) {
        Ok(totp) => Some(totp.get_qr_base64()),
        Err(_) => None,
    }
}

/// Calls `base32::decode` with `Alphabet::Rfc4648 { padding }`; named by
/// `rfc4648_decode`.
#[verifier::external_body]
fn base32_decode(padding: bool, text: &str) -> (r: Option<Vec<u8>>)
    ensures
        match r {
            Some(b) => rfc4648_decode(padding, text@) == Some(b@),
            None => rfc4648_decode(padding, text@) is None,
        },
{
    base32::decode(base32::Alphabet::Rfc4648 { padding }, text)
}

/// Calls `data_encoding::BASE32.encode`; named by `base32_padded`. Both crates
/// implement RFC 4648 base32 with the same upper-case alphabet, and
/// `base32::decode` in padded mode strips the trailing `=` and decodes the
/// rest, so it gives the bytes back.
#[verifier::external_body]
fn base32_encode_padded(bytes: &[u8]) -> (r: String)
    ensures
        r@ == base32_padded(bytes@) && rfc4648_decode(true, r@) == Some(bytes@),
{
    data_encoding::BASE32.encode(bytes)
}

/// Fills a buffer from the operating system's random source
/// (`rand::rngs::OsRng`, `TryRngCore::try_fill_bytes`); `false` where the
/// source fails. Nothing is stated of the bytes.
#[verifier::external_body]
pub(crate) fn try_fill_random<const N: usize>(buf: &mut [u8; N]) -> bool {
    rand::TryRngCore::try_fill_bytes(&mut rand::rngs::OsRng, buf).is_ok()
}

/// Reads the system clock as seconds since the Unix epoch (`UNIX_EPOCH.elapsed()`);
/// `None` where the clock is before the epoch. Nothing is stated of the value.
#[verifier::external_body]
fn unix_time_seconds() -> Option<u64> {
    match std::time::UNIX_EPOCH.elapsed() {
        Ok(d) => Some(d.as_secs()),
        Err(_) => None,
    }
}

/// The current time in seconds since the Unix epoch, if the clock is past it.
pub fn current_time() -> Option<u64> {
    unix_time_seconds()
}

/// A reading of the system clock, in seconds since the Unix epoch. Only
/// `read_clock` makes one, so a value of this type is a time that the clock
/// gave.
pub struct ClockReading {
    secs: u64,
}

impl ClockReading {
    /// The seconds since the Unix epoch that the clock read.
    pub closed spec fn seconds(self) -> u64 {
        self.secs
    }

    /// The seconds since the Unix epoch that the clock read.
    pub fn secs(&self) -> (r: u64)
        ensures
            r == self.seconds(),
    {
        self.secs
    }
}

/// Reads the system clock; `None` where it is before the Unix epoch.
pub fn read_clock() -> Option<ClockReading> {
    match unix_time_seconds() {
        Some(t) => Some(ClockReading { secs: t }),
        None => None,
    }
}

/// The length in bytes of a TOTP secret: 160 bits, as RFC 4226 recommends.
pub const TOTP_SECRET_LEN: usize = 20;

/// A fresh random TOTP secret of 160 bits from the operating system's random
/// source; `None` where that source fails.
pub fn new_totp_secret() -> (r: Option<Vec<u8>>)
    ensures
        r matches Some(b) ==> b@.len() == TOTP_SECRET_LEN,
{
    let mut bytes = [0u8; 20];
    if !try_fill_random(&mut bytes) {
        return None;
    }
    let mut out: Vec<u8> = Vec::new();
    let mut i: usize = 0;
    while i < 20
        invariant
            i <= 20,
            out@.len() == i,
        decreases 20 - i,
    {
        out.push(bytes[i]);
        i = i + 1;
    }
    Some(out)
}

/// Whether `code` is a valid code at `time` for a generator with these
/// settings and secret; `None` where the generator cannot be built.
pub fn check_code(settings: TotpSettings, secret: Vec<u8>, code: &str, time: u64) -> (r: Option<bool>)
    requires
        check_time_in_range(settings, time),
    ensures
        r is Some <==> settings_accept(settings, secret@),
        r matches Some(b) ==> b == totp_code_valid(
            settings.algorithm,
            settings.digits,
            settings.skew,
            settings.step,
            secret@,
            code@,
            time / settings.step,
        ),
{
    totp_check(settings, secret, code, time)
}

/// The QR code image (base64 PNG) that enrols a generator with these settings
/// and secret in an authenticator app; `None` where the generator cannot be built.
pub fn qr_code(settings: TotpSettings, secret: Vec<u8>) -> (r: Option<Result<String, String>>)
    ensures
        r is Some <==> settings_accept(settings, secret@),
        r matches Some(q) ==> match q {
            Ok(s) => totp_qr_base64(settings.algorithm, settings.digits, settings.skew, settings.step,
                secret@, opt_text(settings.issuer), settings.account@) == Ok::<Seq<char>, Seq<char>>(s@),
            Err(e) => totp_qr_base64(settings.algorithm, settings.digits, settings.skew, settings.step,
                secret@, opt_text(settings.issuer), settings.account@) == Err::<Seq<char>, Seq<char>>(e@),
        },
{
    totp_qr(settings, secret)
}

/// The bytes of a secret stored as padded base32 text.
pub fn decode_secret(text: &str) -> (r: Option<Vec<u8>>)
    ensures
        match r {
            Some(b) => rfc4648_decode(true, text@) == Some(b@),
            None => rfc4648_decode(true, text@) is None,
        },
{
    base32_decode(true, text)
}

/// The padded base32 text in which a secret is stored; decoding it gives the
/// secret back.
pub fn encode_secret(bytes: &[u8]) -> (r: String)
    ensures
        r@ == base32_padded(bytes@),
        rfc4648_decode(true, r@) == Some(bytes@),
{
    base32_encode_padded(bytes)
}

} // verus!
