//! Signing up: an email address and a username may each belong to one user
//! only; the password is stored as a bcrypt hash.

use vstd::prelude::*;
use crate::api::auth::login::{signs_in, Users};
use crate::utils::hasher::{bcrypt_verification, default_cost_prefix, hash_password, rand_error_prefix, HashError};
use crate::utils::text::text;

verus! {

/// A sign-up request.
pub struct UserRequest {
    pub firstname: String,
    pub lastname: String,
    pub email: String,
    pub mobile: String,
    pub username: String,
    pub password: String,
}

/// The row a sign-up inserts: the request with its password replaced by a
/// bcrypt hash of it.
pub struct NewUser {
    pub firstname: String,
    pub lastname: String,
    pub email: String,
    pub mobile: String,
    pub username: String,
    pub password: String,
}

/// What a sign-up is answered.
pub enum RegisterReply {
    /// Another user has the email address.
    EmailTaken,
    /// Another user has the username.
    UsernameTaken,
    /// The user was inserted.
    Registered,
    /// The insert failed; the database's error text.
    Failed { error: String },
}

impl RegisterReply {
    /// The text the reply carries.
    pub open spec fn message_text(self) -> Seq<char> {
        match self {
            RegisterReply::EmailTaken => "Email Address is already taken."@,
            RegisterReply::UsernameTaken => "Username is already taken."@,
            RegisterReply::Registered => "You have registered successfully."@,
            RegisterReply::Failed { error } => "Failed to create user: "@ + error@,
        }
    }

    /// The HTTP status code of the reply.
    pub open spec fn status_code(self) -> u16 {
        match self {
            RegisterReply::EmailTaken => 409,
            RegisterReply::UsernameTaken => 409,
            RegisterReply::Registered => 201,
            RegisterReply::Failed { .. } => 500,
        }
    }

    /// The HTTP status: 409 Conflict for a taken email or username, 201
    /// Created, or 500 where the insert failed.
    pub fn status(&self) -> (r: u16)
        ensures
            r == self.status_code(),
    {
        match self {
            RegisterReply::EmailTaken => 409,
            RegisterReply::UsernameTaken => 409,
            RegisterReply::Registered => 201,
            RegisterReply::Failed { .. } => 500,
        }
    }

    /// The text the reply carries.
    pub fn message(&self) -> (r: String)
        ensures
            r@ == self.message_text(),
    {
        match self {
            RegisterReply::EmailTaken => text("Email Address is already taken."),
            RegisterReply::UsernameTaken => text("Username is already taken."),
            RegisterReply::Registered => text("You have registered successfully."),
            RegisterReply::Failed { error } => {
                let mut m = text("Failed to create user: ");
                m.append(error.as_str());
                m
            },
        }
    }
}

/// The decision once the users with the requested email have been counted:
/// refuse where there is one, otherwise go on to the username.
pub fn email_check(count: i64) -> (r: Option<RegisterReply>)
    ensures
        count > 0 ==> r == Some(RegisterReply::EmailTaken),
        count <= 0 ==> r is None,
{
    if count > 0 {
        Some(RegisterReply::EmailTaken)
    } else {
        None
    }
}

/// The decision once the users with the requested username have been counted:
/// refuse where there is one, otherwise go on to insert the user.
pub fn username_check(count: i64) -> (r: Option<RegisterReply>)
    ensures
        count > 0 ==> r == Some(RegisterReply::UsernameTaken),
        count <= 0 ==> r is None,
{
    if count > 0 {
        Some(RegisterReply::UsernameTaken)
    } else {
        None
    }
}

/// The row to insert for a sign-up: its fields, with the password hashed.
/// The stored hash accepts the chosen password.
pub fn new_user_row(payload: UserRequest) -> (r: Result<NewUser, HashError>)
    ensures
        r matches Err(e) ==> rand_error_prefix().is_prefix_of(e.message@) && e.from_random_source(),
        r matches Ok(row) ==> row_of(row, payload),
{
    let hashed = match hash_password(payload.password.as_str()) {
        Ok(h) => h,
        Err(e) => return Err(e),
    };
    Ok(NewUser {
        firstname: payload.firstname,
        lastname: payload.lastname,
        email: payload.email,
        mobile: payload.mobile,
        username: payload.username,
        password: hashed,
    })
}

/// The answer once the insert has run: registered, or the database's error.
pub fn insert_reply(result: Result<(), String>) -> (r: RegisterReply)
    ensures
        match result {
            Ok(_) => r == RegisterReply::Registered,
            Err(e) => r == (RegisterReply::Failed { error: e }),
        },
{
    match result {
        Ok(_) => RegisterReply::Registered,
        Err(e) => RegisterReply::Failed { error: e },
    }
}

/// Where a sign-up stands.
pub enum RegisterState {
    /// The users with the requested email are being counted.
    CountingEmails(UserRequest),
    /// The users with the requested username are being counted.
    CountingUsernames(UserRequest),
    /// The user is being inserted.
    Inserting,
    /// The request has been answered.
    Done,
}

/// What the database reports back to a sign-up.
pub enum RegisterEvent {
    /// The number of users counted.
    Counted(i64),
    /// The outcome of the insert, with the database's error text.
    Inserted(Result<(), String>),
}

/// What a sign-up asks the server to do next.
pub enum RegisterAction {
    /// Count the users with this email.
    CountEmail(String),
    /// Count the users with this username.
    CountUsername(String),
    /// Insert this row.
    Insert(NewUser),
    /// The password could not be hashed; the request cannot be served.
    Fail(HashError),
    /// Answer the request.
    Answer(RegisterReply),
}

/// Whether an event answers the action of a state.
pub open spec fn register_event_fits(state: RegisterState, event: RegisterEvent) -> bool {
    match state {
        RegisterState::CountingEmails(_) => event is Counted,
        RegisterState::CountingUsernames(_) => event is Counted,
        RegisterState::Inserting => event is Inserted,
        RegisterState::Done => false,
    }
}

/// Whether `row` is what a sign-up request inserts: the request's fields,
/// and in place of the password a bcrypt hash that accepts it, 60 characters
/// long and made with the default cost.
pub open spec fn row_of(row: NewUser, payload: UserRequest) -> bool {
    &&& row.firstname == payload.firstname
    &&& row.lastname == payload.lastname
    &&& row.email == payload.email
    &&& row.mobile == payload.mobile
    &&& row.username == payload.username
    &&& bcrypt_verification(payload.password@, row.password@) == Ok::<bool, Seq<char>>(true)
    &&& row.password@.len() == 60
    &&& row.password@.subrange(0, 7) == default_cost_prefix()
}

/// A sign-up begins by counting the users with the requested email.
pub fn register_start(payload: UserRequest) -> (r: (RegisterState, RegisterAction))
    ensures
        r.1 == RegisterAction::CountEmail(payload.email),
        r.0 == RegisterState::CountingEmails(payload),
{
    let email = payload.email.clone();
    (RegisterState::CountingEmails(payload), RegisterAction::CountEmail(email))
}

/// The next state and action of a sign-up, given what the database reports:
/// a taken email or username is answered at once and nothing is inserted.
pub fn register_step(state: RegisterState, event: RegisterEvent) -> (r: (RegisterState, RegisterAction))
    requires
        register_event_fits(state, event),
    ensures
        match state {
            RegisterState::CountingEmails(p) => match event {
                RegisterEvent::Counted(n) => if n > 0 {
                    r == (RegisterState::Done, RegisterAction::Answer(RegisterReply::EmailTaken))
                } else {
                    r == (RegisterState::CountingUsernames(p), RegisterAction::CountUsername(p.username))
                },
                _ => false,
            },
            RegisterState::CountingUsernames(p) => match event {
                RegisterEvent::Counted(n) => if n > 0 {
                    r == (RegisterState::Done, RegisterAction::Answer(RegisterReply::UsernameTaken))
                } else {
                    ||| (r.0 == RegisterState::Done && (r.1 matches RegisterAction::Fail(e)
                        && rand_error_prefix().is_prefix_of(e.message@) && e.from_random_source()))
                    ||| (r.0 == RegisterState::Inserting && (r.1 matches RegisterAction::Insert(row)
                        && row_of(row, p)))
                },
                _ => false,
            },
            RegisterState::Inserting => match event {
                RegisterEvent::Inserted(Ok(_)) => r == (RegisterState::Done, RegisterAction::Answer(
                    RegisterReply::Registered,
                )),
                RegisterEvent::Inserted(Err(e)) => r == (RegisterState::Done, RegisterAction::Answer(
                    (RegisterReply::Failed { error: e }),
                )),
                _ => false,
            },
            RegisterState::Done => false,
        },
{
    match state {
        RegisterState::CountingEmails(p) => match event {
            RegisterEvent::Counted(n) => match email_check(n) {
                Some(reply) => (RegisterState::Done, RegisterAction::Answer(reply)),
                None => {
                    let username = p.username.clone();
                    (RegisterState::CountingUsernames(p), RegisterAction::CountUsername(username))
                },
            },
            RegisterEvent::Inserted(_) => (RegisterState::Done, RegisterAction::Answer(RegisterReply::Registered)),
        },
        RegisterState::CountingUsernames(p) => match event {
            RegisterEvent::Counted(n) => match username_check(n) {
                Some(reply) => (RegisterState::Done, RegisterAction::Answer(reply)),
                None => match new_user_row(p) {
                    Ok(row) => (RegisterState::Inserting, RegisterAction::Insert(row)),
                    Err(e) => (RegisterState::Done, RegisterAction::Fail(e)),
                },
            },
            RegisterEvent::Inserted(_) => (RegisterState::Done, RegisterAction::Answer(RegisterReply::Registered)),
        },
        RegisterState::Inserting => match event {
            RegisterEvent::Inserted(result) => (RegisterState::Done, RegisterAction::Answer(insert_reply(result))),
            RegisterEvent::Counted(_) => (RegisterState::Done, RegisterAction::Answer(RegisterReply::Registered)),
        },
        RegisterState::Done => (RegisterState::Done, RegisterAction::Answer(RegisterReply::Registered)),
    }
}

/// A user signed up with `password` can sign in with it: once the row's
/// hash is stored, a sign-in that reads it back with the same password is
/// given a token.
pub proof fn registered_password_signs_in(row: NewUser, stored: Users, password: Seq<char>)
    requires
        bcrypt_verification(password, row.password@) == Ok::<bool, Seq<char>>(true),
        stored.password@ == row.password@,
    ensures
        signs_in(Some(stored), password),
{
}

/// Whether no two stored users, each given by its email and username, share
/// an email or a username.
pub open spec fn unique_users(users: Seq<(Seq<char>, Seq<char>)>) -> bool {
    forall|i: int, j: int|
        #![trigger users[i], users[j]]
        0 <= i < j < users.len() ==> users[i].0 != users[j].0 && users[i].1 != users[j].1
}

/// Whether a stored user has this email.
pub open spec fn email_taken(users: Seq<(Seq<char>, Seq<char>)>, email: Seq<char>) -> bool {
    exists|i: int| #![trigger users[i]] 0 <= i < users.len() && users[i].0 == email
}

/// Whether a stored user has this username.
pub open spec fn username_taken(users: Seq<(Seq<char>, Seq<char>)>, username: Seq<char>) -> bool {
    exists|i: int| #![trigger users[i]] 0 <= i < users.len() && users[i].1 == username
}

/// Whether a sign-up of `p` that was told the counts `emails` and `usernames`
/// of users with its email and username asks to insert `row`, as
/// `register_step` states: only where both counts are zero, and with the
/// row made from the request.
pub open spec fn sign_up_inserts(p: UserRequest, emails: i64, usernames: i64, row: NewUser) -> bool {
    emails <= 0 && usernames <= 0 && row_of(row, p)
}

/// Sign-ups keep emails and usernames unique: where no two stored users
/// share either, the counts a sign-up is told are those of the stored users,
/// and the sign-up inserts a row, the users with that row added still share
/// neither.
pub proof fn sign_up_keeps_users_unique(
    users: Seq<(Seq<char>, Seq<char>)>,
    p: UserRequest,
    emails: i64,
    usernames: i64,
    row: NewUser,
)
    requires
        unique_users(users),
        emails > 0 <==> email_taken(users, p.email@),
        usernames > 0 <==> username_taken(users, p.username@),
        sign_up_inserts(p, emails, usernames, row),
    ensures
        unique_users(users.push((row.email@, row.username@))),
{
    let after = users.push((row.email@, row.username@));
    assert forall|i: int, j: int|
        #![trigger after[i], after[j]]
        0 <= i < j < after.len() implies after[i].0 != after[j].0 && after[i].1 != after[j].1 by {
        if j == users.len() {
            assert(after[i] == users[i]);
            assert(after[j] == (row.email@, row.username@));
            assert(row.email@ == p.email@ && row.username@ == p.username@);
            if users[i].0 == p.email@ {
                assert(email_taken(users, p.email@));
            }
            if users[i].1 == p.username@ {
                assert(username_taken(users, p.username@));
            }
        } else {
            assert(after[i] == users[i] && after[j] == users[j]);
            assert(users[i].0 != users[j].0 && users[i].1 != users[j].1);
        }
    }
}

} // verus!
