use rust_postgres::api::auth::activatemfa::{
    disabled_reply, enabled_reply, enrolment_with, mfa_requested, new_enrolment, MfaFailure, MfaReply, Users,
};
use rust_postgres::api::auth::verifyotp::{otp_code, verify_otp, verify_otp_at, OtpReply, Users as OtpUsers};
use rust_postgres::utils::otp::{check_code, decode_secret, encode_secret, new_totp_secret, TotpAlgorithm, TotpSettings};

const RFC_SECRET: &[u8] = b"12345678901234567890";

fn user(secret: &str, email: &str) -> OtpUsers {
    OtpUsers { username: "jdoe".to_string(), email: email.to_string(), secret: secret.to_string() }
}

#[test]
fn base32_secret_roundtrips() {
    let text = encode_secret(RFC_SECRET);
    assert_eq!(text, "GEZDGNBVGY3TQOJQGEZDGNBVGY3TQOJQ");
    assert_eq!(decode_secret(&text), Some(RFC_SECRET.to_vec()));
    let short = encode_secret(b"a");
    assert_eq!(short, "ME======");
    assert_eq!(decode_secret(&short), Some(b"a".to_vec()));
    assert_eq!(decode_secret("not base32!"), None);
}

#[test]
fn rfc6238_code_is_accepted() {
    let settings = TotpSettings {
        algorithm: TotpAlgorithm::Sha1,
        digits: 8,
        skew: 0,
        step: 30,
        issuer: None,
        account: String::new(),
    };
    assert_eq!(check_code(settings, RFC_SECRET.to_vec(), "94287082", 59), Some(true));
}

#[test]
fn short_secret_cannot_build_a_generator() {
    let settings = TotpSettings {
        algorithm: TotpAlgorithm::Sha1,
        digits: 6,
        skew: 1,
        step: 30,
        issuer: None,
        account: String::new(),
    };
    assert_eq!(check_code(settings, vec![1, 2, 3], "000000", 59), None);
}

#[test]
fn mfa_request_body_is_read() {
    assert_eq!(mfa_requested("{\"TwoFactorEnabled\": true}"), Some(true));
    assert_eq!(mfa_requested("{\"TwoFactorEnabled\": false}"), Some(false));
    assert_eq!(mfa_requested("{\"TwoFactorEnabled\": \"true\"}"), Some(false));
    assert_eq!(mfa_requested("{}"), Some(false));
    assert_eq!(mfa_requested("not json"), None);
}

#[test]
fn otp_code_is_the_json_text_of_the_member() {
    assert_eq!(otp_code("{\"otp\": 287082}"), Some("287082".to_string()));
    assert_eq!(otp_code("{\"otp\": \"287082\"}"), Some("\"287082\"".to_string()));
    assert_eq!(otp_code("{}"), Some("null".to_string()));
    assert_eq!(otp_code("{"), None);
}

#[test]
fn enrolment_stores_a_secret_that_decodes_back() {
    let m = enrolment_with(RFC_SECRET.to_vec(), "jdoe@example.com").ok().unwrap();
    assert_eq!(m.secret, "GEZDGNBVGY3TQOJQGEZDGNBVGY3TQOJQ");
    assert_eq!(decode_secret(&m.secret), Some(RFC_SECRET.to_vec()));
    assert!(m.qrcodeurl.len() > 100);
}

#[test]
fn enrolment_refuses_a_colon_in_the_email() {
    assert!(matches!(enrolment_with(RFC_SECRET.to_vec(), "a:b@example.com"), Err(MfaFailure::EntryRejected)));
    assert!(matches!(enrolment_with(RFC_SECRET[..10].to_vec(), "jdoe@example.com"), Err(MfaFailure::EntryRejected)));
    let u = Users { username: "x".to_string(), email: "a:b".to_string() };
    assert!(matches!(new_enrolment(&u), Err(MfaFailure::EntryRejected)));
}

#[test]
fn fresh_enrolment_has_twenty_byte_secret() {
    let u = Users { username: "x".to_string(), email: "x@example.com".to_string() };
    let m = new_enrolment(&u).ok().unwrap();
    assert_eq!(m.secret.len(), 32);
    assert_eq!(decode_secret(&m.secret).unwrap().len(), 20);
    let a = new_totp_secret().unwrap();
    let b = new_totp_secret().unwrap();
    assert_eq!(a.len(), 20);
    assert_ne!(a, b);
}

#[test]
fn enrolled_user_is_verified_with_a_current_code() {
    let u = user("GEZDGNBVGY3TQOJQGEZDGNBVGY3TQOJQ", "jdoe@example.com");
    match verify_otp_at(u, "287082", 59) {
        Some(OtpReply::Verified { username }) => assert_eq!(username, "jdoe"),
        _ => panic!("expected the code to verify"),
    }
    let r = verify_otp_at(user("GEZDGNBVGY3TQOJQGEZDGNBVGY3TQOJQ", "j@e.com"), "287082", 59).unwrap();
    assert_eq!(r.status(), 200);
    assert_eq!(r.message(), "OTP code has verified successfully.");
}

#[test]
fn wrong_code_is_refused() {
    let r = verify_otp_at(user("GEZDGNBVGY3TQOJQGEZDGNBVGY3TQOJQ", "j@e.com"), "111111", 59).unwrap();
    assert!(matches!(r, OtpReply::InvalidCode));
    assert_eq!(r.status(), 409);
    assert_eq!(r.message(), "Invalid OTP code, please try again.");
    let quoted = verify_otp_at(user("GEZDGNBVGY3TQOJQGEZDGNBVGY3TQOJQ", "j@e.com"), "\"287082\"", 59).unwrap();
    assert!(matches!(quoted, OtpReply::InvalidCode));
}

#[test]
fn code_of_the_previous_step_is_accepted_by_skew() {
    let r = verify_otp_at(user("GEZDGNBVGY3TQOJQGEZDGNBVGY3TQOJQ", "j@e.com"), "287082", 89).unwrap();
    assert!(matches!(r, OtpReply::Verified { .. }));
    let r = verify_otp_at(user("GEZDGNBVGY3TQOJQGEZDGNBVGY3TQOJQ", "j@e.com"), "287082", 120).unwrap();
    assert!(matches!(r, OtpReply::InvalidCode));
}

#[test]
fn malformed_secret_is_a_server_error() {
    let r = verify_otp_at(user("not base32!", "j@e.com"), "287082", 59).unwrap();
    assert!(matches!(r, OtpReply::InvalidSecret));
    assert_eq!(r.status(), 500);
    assert_eq!(r.message(), "Internal server error: Invalid secret format.");
    assert_eq!(OtpReply::LookupFailed.status(), 500);
    assert_eq!(OtpReply::LookupFailed.message(), "Internal server error: Database access failed.");
}

#[test]
fn short_stored_secret_cannot_be_checked() {
    assert!(verify_otp_at(user("ME======", "j@e.com"), "287082", 59).is_none());
    assert!(verify_otp(user("ME======", "j@e.com"), "287082").is_none());
}

#[test]
fn current_check_answers_for_an_enrolled_user() {
    let r = verify_otp(user("GEZDGNBVGY3TQOJQGEZDGNBVGY3TQOJQ", "j@e.com"), "000000x").unwrap();
    assert!(matches!(r, OtpReply::InvalidCode));
}

#[test]
fn mfa_replies_follow_rows_changed() {
    let r = enabled_reply(1, "QR".to_string());
    assert!(matches!(&r, MfaReply::Enabled { qrcodeurl } if qrcodeurl == "QR"));
    assert_eq!(r.status(), 200);
    assert_eq!(r.message(), "Multi-Factor Authenticator has been anabled");
    let r = enabled_reply(0, "QR".to_string());
    assert!(matches!(r, MfaReply::EnableFailed));
    assert_eq!(r.message(), "Unable to enable MFA.");
    let r = disabled_reply(2);
    assert!(matches!(r, MfaReply::Disabled));
    assert_eq!(r.message(), "Multi-Factor Authenticator has been disabled.");
    let r = disabled_reply(0);
    assert_eq!(r.message(), "Unable to disable MFA.");
    assert_eq!(r.status(), 200);
}

#[test]
fn current_check_answers_a_malformed_secret() {
    let r = verify_otp(user("not base32!", "j@e.com"), "287082").unwrap();
    assert!(matches!(r, OtpReply::InvalidSecret));
    assert!(verify_otp(user("GEZDGNBVGY3TQOJQGEZDGNBVGY3TQOJQ", "a:b"), "287082").is_none());
}

#[test]
fn checks_within_one_step_agree() {
    for t in [30u64, 45, 59] {
        let r = verify_otp_at(user("GEZDGNBVGY3TQOJQGEZDGNBVGY3TQOJQ", "j@e.com"), "287082", t).unwrap();
        assert!(matches!(r, OtpReply::Verified { .. }));
    }
    for t in [120u64, 135, 149] {
        let r = verify_otp_at(user("GEZDGNBVGY3TQOJQGEZDGNBVGY3TQOJQ", "j@e.com"), "287082", t).unwrap();
        assert!(matches!(r, OtpReply::InvalidCode));
    }
}

#[test]
fn activated_secret_is_the_one_checked() {
    let m = enrolment_with(RFC_SECRET.to_vec(), "jdoe@example.com").ok().unwrap();
    let stored = user(&m.secret, "jdoe@example.com");
    assert!(matches!(verify_otp_at(stored, "287082", 59), Some(OtpReply::Verified { .. })));
    let stored = user(&m.secret, "jdoe@example.com");
    assert!(matches!(verify_otp_at(stored, "287083", 59), Some(OtpReply::InvalidCode)));
}
