use rust_postgres::api::auth::activatemfa::{mfa_start, mfa_step, MfaAction, MfaEvent, MfaFailure, MfaReply, MfaState, Users as MfaUsers};
use rust_postgres::api::auth::login::{login_start, login_step, LoginAction, LoginEvent, LoginReply, LoginState, RequestData, Users};
use rust_postgres::api::auth::register::{register_start, register_step, RegisterAction, RegisterEvent, RegisterReply, RegisterState, UserRequest};
use rust_postgres::api::auth::verifyotp::{otp_start, otp_step, OtpAction, OtpEvent, OtpReply, OtpState, Users as OtpUsers};
use rust_postgres::utils::hasher::{hash_password, verify_password};

fn request(password: &str) -> UserRequest {
    UserRequest {
        firstname: "Ann".to_string(),
        lastname: "Lee".to_string(),
        email: "ann@example.com".to_string(),
        mobile: "123".to_string(),
        username: "ann".to_string(),
        password: password.to_string(),
    }
}

fn stored(hash: &str) -> Users {
    Users {
        id: 3,
        firstname: "Ann".to_string(),
        lastname: "Lee".to_string(),
        email: "ann@example.com".to_string(),
        mobile: "123".to_string(),
        username: "ann".to_string(),
        password: hash.to_string(),
        roles: "USER".to_string(),
        isactivated: 1,
        isblocked: 0,
        mailtoken: 0,
        userpic: "pix.png".to_string(),
        qrcodeurl: Some("QR".to_string()),
    }
}

#[test]
fn sign_up_counts_then_inserts() {
    let (s, a) = register_start(request("pw"));
    assert!(matches!(&a, RegisterAction::CountEmail(e) if e == "ann@example.com"));
    let (s, a) = register_step(s, RegisterEvent::Counted(0));
    assert!(matches!(&a, RegisterAction::CountUsername(u) if u == "ann"));
    let (s, a) = register_step(s, RegisterEvent::Counted(0));
    assert!(matches!(s, RegisterState::Inserting));
    match a {
        RegisterAction::Insert(row) => {
            assert_eq!(row.email, "ann@example.com");
            assert_eq!(verify_password("pw", &row.password).ok(), Some(true));
        }
        _ => panic!("expected an insert"),
    }
    let (s, a) = register_step(RegisterState::Inserting, RegisterEvent::Inserted(Ok(())));
    assert!(matches!(s, RegisterState::Done));
    assert!(matches!(a, RegisterAction::Answer(RegisterReply::Registered)));
}

#[test]
fn sign_up_with_taken_email_or_username_inserts_nothing() {
    let (s, _) = register_start(request("pw"));
    let (s, a) = register_step(s, RegisterEvent::Counted(1));
    assert!(matches!(s, RegisterState::Done));
    assert!(matches!(a, RegisterAction::Answer(RegisterReply::EmailTaken)));
    let (s, _) = register_start(request("pw"));
    let (s, _) = register_step(s, RegisterEvent::Counted(0));
    let (s, a) = register_step(s, RegisterEvent::Counted(2));
    assert!(matches!(s, RegisterState::Done));
    assert!(matches!(a, RegisterAction::Answer(RegisterReply::UsernameTaken)));
    let (_, a) = register_step(RegisterState::Inserting, RegisterEvent::Inserted(Err("down".to_string())));
    match a {
        RegisterAction::Answer(r) => assert_eq!(r.message(), "Failed to create user: down"),
        _ => panic!("expected an answer"),
    }
}

#[test]
fn sign_in_reads_user_then_secret() {
    let hash = hash_password("pw").ok().unwrap();
    let (s, a) = login_start(RequestData { username: "ann".to_string(), password: "pw".to_string() });
    assert!(matches!(&a, LoginAction::LookUp(u) if u == "ann"));
    let (s, a) = login_step(s, LoginEvent::Found(Some(stored(&hash))));
    assert!(matches!(a, LoginAction::ReadSecret));
    assert!(matches!(&s, LoginState::Signing(u) if u.id == 3));
    let (s, a) = login_step(s, LoginEvent::Secret(b"k".to_vec()));
    assert!(matches!(s, LoginState::Done));
    match a {
        LoginAction::Answer(LoginReply::LoggedIn { profile, token }, None) => {
            assert_eq!(profile.username, "ann");
            assert_eq!(profile.id, 3);
            assert_eq!(token.split('.').count(), 3);
        }
        _ => panic!("expected a sign-in"),
    }
}

#[test]
fn sign_in_refusals_are_answered_at_once() {
    let (s, _) = login_start(RequestData { username: "bob".to_string(), password: "pw".to_string() });
    let (s, a) = login_step(s, LoginEvent::Found(None));
    assert!(matches!(s, LoginState::Done));
    assert!(matches!(a, LoginAction::Answer(LoginReply::UsernameNotFound, None)));
    let hash = hash_password("pw").ok().unwrap();
    let (s, _) = login_start(RequestData { username: "ann".to_string(), password: "nope".to_string() });
    let (_, a) = login_step(s, LoginEvent::Found(Some(stored(&hash))));
    assert!(matches!(a, LoginAction::Answer(LoginReply::InvalidPassword, None)));
}

#[test]
fn mfa_on_reads_user_stores_enrolment_and_answers() {
    let (s, a) = mfa_start("{\"TwoFactorEnabled\": true}");
    assert!(matches!(s, MfaState::LoadingUser));
    assert!(matches!(a, MfaAction::LoadUser));
    let (s, a) = mfa_step(s, MfaEvent::Loaded(MfaUsers { username: "ann".to_string(), email: "ann@example.com".to_string() }));
    let qr = match a {
        MfaAction::Store(m) => {
            assert_eq!(m.secret.len(), 32);
            m.qrcodeurl
        }
        _ => panic!("expected an enrolment"),
    };
    let (s, a) = mfa_step(s, MfaEvent::Stored(1));
    assert!(matches!(s, MfaState::Done));
    assert!(matches!(a, MfaAction::Answer(MfaReply::Enabled { qrcodeurl }) if qrcodeurl == qr));
}

#[test]
fn mfa_off_clears_and_answers() {
    let (s, a) = mfa_start("{\"TwoFactorEnabled\": false}");
    assert!(matches!(s, MfaState::Clearing));
    assert!(matches!(a, MfaAction::Clear));
    let (_, a) = mfa_step(s, MfaEvent::Cleared(0));
    assert!(matches!(a, MfaAction::Answer(MfaReply::DisableFailed)));
    let (s, a) = mfa_start("oops");
    assert!(matches!(s, MfaState::Done));
    assert!(matches!(a, MfaAction::Fail(MfaFailure::InvalidBody)));
    let (_, a) = mfa_step(MfaState::LoadingUser, MfaEvent::Loaded(MfaUsers { username: "a".to_string(), email: "a:b".to_string() }));
    assert!(matches!(a, MfaAction::Fail(MfaFailure::EntryRejected)));
}

#[test]
fn code_check_reads_user_then_answers() {
    let (s, a) = otp_start("{\"otp\": 123456}");
    assert!(matches!(&s, OtpState::LoadingUser(c) if c == "123456"));
    assert!(matches!(a, OtpAction::LoadUser));
    let (_, a) = otp_step(s, OtpEvent::Loaded(None));
    match a {
        OtpAction::Answer(r) => {
            assert!(matches!(r, OtpReply::LookupFailed));
            assert_eq!(r.status(), 500);
        }
        _ => panic!("expected an answer"),
    }
    let (s, _) = otp_start("{\"otp\": 123456}");
    let user = OtpUsers { username: "ann".to_string(), email: "ann@example.com".to_string(), secret: "@@@".to_string() };
    let (_, a) = otp_step(s, OtpEvent::Loaded(Some(user)));
    assert!(matches!(a, OtpAction::Answer(OtpReply::InvalidSecret)));
    let (s, a) = otp_start("not json");
    assert!(matches!(s, OtpState::Done));
    assert!(matches!(a, OtpAction::Fail));
    let (s, _) = otp_start("{\"otp\": 123456}");
    let user = OtpUsers { username: "ann".to_string(), email: "a:b".to_string(), secret: "GEZDGNBVGY3TQOJQGEZDGNBVGY3TQOJQ".to_string() };
    let (_, a) = otp_step(s, OtpEvent::Loaded(Some(user)));
    assert!(matches!(a, OtpAction::Fail));
}

use rust_postgres::api::products::search::{search_start, search_step, Params, SearchAction, SearchEvent, SearchReply, SearchState};
use rust_postgres::api::users::changepassword::{password_change_start, PasswordAction, UserRequest as PasswordRequest};
use rust_postgres::api::users::getuserid::{userid_start, userid_step, UserIdAction, UserIdEvent, UserIdReply, UserIdState, Users as IdUsers};

#[test]
fn search_counts_then_reads_the_page() {
    let (s, a) = search_start::<u32>(Params { page: 2, key: "nut".to_string() });
    assert!(matches!(&a, SearchAction::Count(p) if p == "%nut%"));
    let (s, a) = search_step::<u32>(s, SearchEvent::Counted(7));
    assert!(matches!(&a, SearchAction::Read { pattern, offset: 5, limit: 5 } if pattern == "%nut%"));
    let (s, a) = search_step(s, SearchEvent::Read(vec![1u32, 2u32]));
    assert!(matches!(s, SearchState::Done));
    match a {
        SearchAction::Answer(SearchReply::Found { page, totpage, totalrecords, products }) => {
            assert_eq!((page, totpage, totalrecords), (2, 2, 7));
            assert_eq!(products, vec![1, 2]);
        }
        _ => panic!("expected a page"),
    }
}

#[test]
fn search_empty_page_and_overflowing_page() {
    let (s, _) = search_start::<u32>(Params { page: 9, key: "x".to_string() });
    let (s, _) = search_step::<u32>(s, SearchEvent::Counted(3));
    let (_, a) = search_step::<u32>(s, SearchEvent::Read(Vec::new()));
    assert!(matches!(a, SearchAction::Answer(SearchReply::NotFound)));
    let (s, _) = search_start::<u32>(Params { page: i32::MAX, key: "x".to_string() });
    let (s, a) = search_step::<u32>(s, SearchEvent::Counted(3));
    assert!(matches!(s, SearchState::Done));
    assert!(matches!(a, SearchAction::Fail));
    let (s, _) = search_start::<u32>(Params { page: 429_496_730, key: "x".to_string() });
    let (_, a) = search_step::<u32>(s, SearchEvent::Counted(3));
    assert!(matches!(a, SearchAction::Read { offset: 2_147_483_645, .. }));
    let (s, _) = search_start::<u32>(Params { page: 429_496_731, key: "x".to_string() });
    let (_, a) = search_step::<u32>(s, SearchEvent::Counted(3));
    assert!(matches!(a, SearchAction::Fail));
}

fn id_user() -> IdUsers {
    IdUsers {
        id: 1,
        firstname: "A".to_string(),
        lastname: "B".to_string(),
        email: "e".to_string(),
        mobile: "m".to_string(),
        username: "u".to_string(),
        roles: "r".to_string(),
        isactivated: 1,
        isblocked: 0,
        mailtoken: 0,
        userpic: "pix.png".to_string(),
        qrcodeurl: None,
    }
}

#[test]
fn read_by_id_counts_first() {
    let (s, a) = userid_start();
    assert!(matches!(a, UserIdAction::Count));
    let (s, a) = userid_step(s, UserIdEvent::Counted(1));
    assert!(matches!(a, UserIdAction::Read));
    let (s, a) = userid_step(s, UserIdEvent::Read(id_user()));
    assert!(matches!(s, UserIdState::Done));
    assert!(matches!(a, UserIdAction::Answer(UserIdReply::Found(u)) if u.id == 1));
    let (s, _) = userid_start();
    let (_, a) = userid_step(s, UserIdEvent::Counted(0));
    assert!(matches!(a, UserIdAction::Answer(UserIdReply::NotFound)));
}

#[test]
fn password_change_stores_a_verifying_hash() {
    match password_change_start(&PasswordRequest { password: "new-pw".to_string() }) {
        PasswordAction::Update(h) => assert_eq!(verify_password("new-pw", &h).ok(), Some(true)),
        PasswordAction::Fail(_) => panic!("hashing failed"),
    }
}
