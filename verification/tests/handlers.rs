use rust_postgres::api::auth::login::{login_check, login_issue, login_success, LoginReply, LoginStep, Users};
use rust_postgres::api::auth::register::{email_check, insert_reply, new_user_row, username_check, RegisterReply, UserRequest};
use rust_postgres::api::products::search::{page_offset, search_pattern, search_reply, total_pages, SearchReply};
use rust_postgres::api::users::changepassword::password_change_reply;
use rust_postgres::api::users::getuserid::{user_exists, UserIdReply};
use rust_postgres::api::users::updateprofile::profile_update_reply;
use rust_postgres::utils::hasher::{hash_password, verify_password};
use rust_postgres::utils::jwt::JwtError;

fn stored_user(password_hash: &str) -> Users {
    Users {
        id: 7,
        firstname: "Jane".to_string(),
        lastname: "Doe".to_string(),
        email: "jane@example.com".to_string(),
        mobile: "555".to_string(),
        username: "jane".to_string(),
        password: password_hash.to_string(),
        roles: "USER".to_string(),
        isactivated: 1,
        isblocked: 0,
        mailtoken: 0,
        userpic: "pix.png".to_string(),
        qrcodeurl: None,
    }
}

#[test]
fn unknown_username_is_refused() {
    match login_check(None, "pw") {
        LoginStep::Answer(r) => {
            assert!(matches!(r, LoginReply::UsernameNotFound));
            assert_eq!(r.status(), 409);
            assert_eq!(r.message(), "Username not found, please register.");
        }
        LoginStep::IssueToken(_) => panic!("no token without a user"),
    }
}

#[test]
fn registered_password_signs_in_and_others_do_not() {
    let row = new_user_row(UserRequest {
        firstname: "Jane".to_string(),
        lastname: "Doe".to_string(),
        email: "jane@example.com".to_string(),
        mobile: "555".to_string(),
        username: "jane".to_string(),
        password: "hunter2".to_string(),
    })
    .ok()
    .unwrap();
    assert_eq!(row.email, "jane@example.com");
    assert_eq!(row.username, "jane");
    assert_ne!(row.password, "hunter2");
    assert!(matches!(login_check(Some(stored_user(&row.password)), "hunter2"), LoginStep::IssueToken(u) if u.id == 7));
    match login_check(Some(stored_user(&row.password)), "hunter3") {
        LoginStep::Answer(r) => {
            assert!(matches!(r, LoginReply::InvalidPassword));
            assert_eq!(r.status(), 409);
            assert_eq!(r.message(), "Invalid password.");
        }
        LoginStep::IssueToken(_) => panic!("wrong password"),
    }
}

#[test]
fn unreadable_stored_hash_is_reported() {
    match login_check(Some(stored_user("plain")), "plain") {
        LoginStep::Answer(r) => {
            assert!(matches!(&r, LoginReply::VerifyFailed { error } if error == "Invalid hash: plain"));
            assert_eq!(r.message(), "Invalid hash: plain");
            assert_eq!(r.status(), 409);
        }
        LoginStep::IssueToken(_) => panic!("no token"),
    }
}

#[test]
fn sign_in_answer_carries_the_token() {
    let (r, logged) = login_success(stored_user("h"), Ok("tok".to_string()));
    assert!(logged.is_none());
    assert_eq!(r.status(), 200);
    assert_eq!(r.message(), "Logged-In Successful.");
    match &r {
        LoginReply::LoggedIn { profile, token } => {
            assert_eq!(profile.username, "jane");
            assert_eq!(profile.email, "jane@example.com");
            assert_eq!(token, "tok");
        }
        _ => panic!("expected a sign-in"),
    }
    let (r, logged) = login_success(stored_user("h"), Err(JwtError { message: "bad".to_string() }));
    assert_eq!(logged, Some("bad".to_string()));
    assert!(matches!(&r, LoginReply::LoggedIn { token, .. } if token.is_empty()));
}

#[test]
fn issued_sign_in_token_names_the_email() {
    let (r, logged) = login_issue(stored_user("h"), b"server-secret");
    assert!(logged.is_none());
    match r {
        LoginReply::LoggedIn { token, .. } => {
            let data = jsonwebtoken::decode::<serde_json::Value>(
                &token,
                &jsonwebtoken::DecodingKey::from_secret(b"server-secret"),
                &jsonwebtoken::Validation::default(),
            )
            .unwrap();
            assert_eq!(data.claims["sub"], "jane@example.com");
        }
        _ => panic!("expected a sign-in"),
    }
}

#[test]
fn taken_email_is_checked_before_username() {
    let r = email_check(1).unwrap();
    assert!(matches!(r, RegisterReply::EmailTaken));
    assert_eq!(r.status(), 409);
    assert_eq!(r.message(), "Email Address is already taken.");
    assert!(email_check(0).is_none());
    let r = username_check(3).unwrap();
    assert!(matches!(r, RegisterReply::UsernameTaken));
    assert_eq!(r.message(), "Username is already taken.");
    assert!(username_check(0).is_none());
}

#[test]
fn insert_outcome_is_answered() {
    let r = insert_reply(Ok(()));
    assert_eq!(r.status(), 201);
    assert_eq!(r.message(), "You have registered successfully.");
    let r = insert_reply(Err("duplicate key".to_string()));
    assert_eq!(r.status(), 500);
    assert_eq!(r.message(), "Failed to create user: duplicate key");
}

#[test]
fn new_row_hash_verifies() {
    let row = new_user_row(UserRequest {
        firstname: "A".to_string(),
        lastname: "B".to_string(),
        email: "a@b".to_string(),
        mobile: "1".to_string(),
        username: "ab".to_string(),
        password: "pw".to_string(),
    })
    .ok()
    .unwrap();
    assert_eq!(verify_password("pw", &row.password).ok(), Some(true));
    assert_eq!(row.firstname, "A");
    assert_eq!(row.lastname, "B");
    assert_eq!(row.mobile, "1");
}

#[test]
fn search_pattern_wraps_key() {
    assert_eq!(search_pattern("bolt"), "%bolt%");
    assert_eq!(search_pattern(""), "%%");
}

#[test]
fn page_offsets_step_by_five() {
    assert_eq!(page_offset(1), 0);
    assert_eq!(page_offset(3), 10);
    assert_eq!(page_offset(0), -5);
}

#[test]
fn page_count_rounds_up() {
    assert_eq!(total_pages(0), 0);
    assert_eq!(total_pages(1), 1);
    assert_eq!(total_pages(5), 1);
    assert_eq!(total_pages(6), 2);
    assert_eq!(total_pages(12), 3);
    assert_eq!(total_pages(-4), 0);
    assert_eq!(total_pages(i64::MAX), u32::MAX);
    assert_eq!(total_pages(21_474_836_475), u32::MAX);
    assert_eq!(total_pages(21_474_836_470), 4_294_967_294);
}

#[test]
fn empty_page_is_not_found() {
    let r: SearchReply<u8> = search_reply(2, 3, Vec::new());
    assert!(matches!(r, SearchReply::NotFound));
    assert_eq!(r.status(), 404);
    assert_eq!(r.message(), "Product(s) not found..");
    let r = search_reply(1, 12, vec![10u8, 11u8]);
    assert_eq!(r.status(), 200);
    match r {
        SearchReply::Found { page, totpage, totalrecords, products } => {
            assert_eq!(page, 1);
            assert_eq!(totpage, 3);
            assert_eq!(totalrecords, 12);
            assert_eq!(products, vec![10u8, 11u8]);
        }
        SearchReply::NotFound => panic!("products were read"),
    }
}

#[test]
fn user_lookup_by_count() {
    assert!(user_exists(1));
    assert!(!user_exists(0));
    let r = UserIdReply::NotFound;
    assert_eq!(r.status(), 404);
    assert_eq!(r.message(), "User ID not found..");
}

#[test]
fn profile_and_password_messages() {
    assert_eq!(profile_update_reply(1).0, 200);
    assert_eq!(profile_update_reply(0).0, 200);
    assert_eq!(profile_update_reply(1).1.message, "You have updated your profile successfully");
    assert_eq!(profile_update_reply(0).1.message, "No record(s) where updated....");
    assert_eq!(password_change_reply(1).0, 200);
    assert_eq!(password_change_reply(0).0, 200);
    assert_eq!(password_change_reply(1).1.message, "You have changed your password successfully.");
    assert_eq!(password_change_reply(0).1.message, "Unable to change your password, try again later....");
}

#[test]
fn hash_password_is_reexported() {
    let h = rust_postgres::utils::hash_password("x").ok().unwrap();
    assert!(rust_postgres::utils::verify_password("x", &h).ok().unwrap());
    assert!(hash_password("x").is_ok());
}
