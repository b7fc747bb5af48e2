//! Signing in with a username and password.

use vstd::prelude::*;
use crate::utils::hasher::{bcrypt_verification, verify_password};
use crate::utils::jwt::{clock_failure, create_jwt, issued_token, JwtError, TOKEN_LIFETIME_SECONDS};
use crate::utils::otp::opt_text;
use crate::utils::text::text;

verus! {

/// The stored user that a sign-in reads by username.
pub struct Users {
    pub id: i32,
    pub firstname: String,
    pub lastname: String,
    pub email: String,
    pub mobile: String,
    pub username: String,
    pub password: String,
    pub roles: String,
    pub isactivated: i32,
    pub isblocked: i32,
    pub mailtoken: i32,
    pub userpic: String,
    pub qrcodeurl: Option<String>,
}

/// The credentials of a sign-in request.
pub struct RequestData {
    pub username: String,
    pub password: String,
}

/// What a signed-in user is answered with: the stored fields but for the
/// password hash and the mail token.
pub struct Profile {
    pub id: i32,
    pub firstname: String,
    pub lastname: String,
    pub email: String,
    pub mobile: String,
    pub username: String,
    pub roles: String,
    pub isactivated: i32,
    pub isblocked: i32,
    pub userpic: String,
    pub qrcodeurl: Option<String>,
}

/// Whether a profile holds the answered fields of a stored user.
pub open spec fn profile_matches(p: Profile, u: Users) -> bool {
    &&& p.id == u.id
    &&& p.firstname@ == u.firstname@
    &&& p.lastname@ == u.lastname@
    &&& p.email@ == u.email@
    &&& p.mobile@ == u.mobile@
    &&& p.username@ == u.username@
    &&& p.roles@ == u.roles@
    &&& p.isactivated == u.isactivated
    &&& p.isblocked == u.isblocked
    &&& p.userpic@ == u.userpic@
    &&& opt_text(p.qrcodeurl) == opt_text(u.qrcodeurl)
}

/// The profile that a sign-in answers for a stored user.
pub fn profile_of(user: &Users) -> (p: Profile)
    ensures
        profile_matches(p, *user),
{
    let qrcodeurl = match &user.qrcodeurl {
        Some(q) => Some(text(q.as_str())),
        None => None,
    };
    Profile {
        id: user.id,
        firstname: text(user.firstname.as_str()),
        lastname: text(user.lastname.as_str()),
        email: text(user.email.as_str()),
        mobile: text(user.mobile.as_str()),
        username: text(user.username.as_str()),
        roles: text(user.roles.as_str()),
        isactivated: user.isactivated,
        isblocked: user.isblocked,
        userpic: text(user.userpic.as_str()),
        qrcodeurl,
    }
}

/// What a sign-in is answered.
pub enum LoginReply {
    /// Signed in: the user's profile and a token (empty where none could be made).
    LoggedIn { profile: Profile, token: String },
    /// The password does not match the stored hash.
    InvalidPassword,
    /// The stored hash could not be checked; bcrypt's error text.
    VerifyFailed { error: String },
    /// No user has this username.
    UsernameNotFound,
}

impl LoginReply {
    /// The text the reply carries.
    pub open spec fn message_text(self) -> Seq<char> {
        match self {
            LoginReply::LoggedIn { .. } => "Logged-In Successful."@,
            LoginReply::InvalidPassword => "Invalid password."@,
            LoginReply::VerifyFailed { error } => error@,
            LoginReply::UsernameNotFound => "Username not found, please register."@,
        }
    }

    /// The HTTP status: 200 when signed in, 409 Conflict otherwise.
    pub fn status(&self) -> (r: u16)
        ensures
            self is LoggedIn ==> r == 200,
            !(self is LoggedIn) ==> r == 409,
    {
        match self {
            LoginReply::LoggedIn { .. } => 200,
            _ => 409,
        }
    }

    /// The text the reply carries.
    pub fn message(&self) -> (r: String)
        ensures
            r@ == self.message_text(),
    {
        match self {
            LoginReply::LoggedIn { .. } => text("Logged-In Successful."),
            LoginReply::InvalidPassword => text("Invalid password."),
            LoginReply::VerifyFailed { error } => text(error.as_str()),
            LoginReply::UsernameNotFound => text("Username not found, please register."),
        }
    }
}

/// Where a sign-in goes once the user has been looked up.
pub enum LoginStep {
    /// The password matches: issue a token for this user.
    IssueToken(Users),
    /// Answer at once.
    Answer(LoginReply),
}

/// Whether the password attempt matches the user's stored hash.
pub open spec fn password_accepted(user: Users, attempt: Seq<char>) -> bool {
    bcrypt_verification(attempt, user.password@) == Ok::<bool, Seq<char>>(true)
}

/// Whether a sign-in with this looked-up user and attempt is given a token.
pub open spec fn signs_in(user: Option<Users>, attempt: Seq<char>) -> bool {
    user matches Some(u) && password_accepted(u, attempt)
}

/// Decides a sign-in from the looked-up user (`None` where no user has the
/// username) and the password attempt.
pub fn login_check(user: Option<Users>, attempt: &str) -> (r: LoginStep)
    ensures
        r is IssueToken <==> signs_in(user, attempt@),
        match user {
            None => r == LoginStep::Answer(LoginReply::UsernameNotFound),
            Some(u) => match bcrypt_verification(attempt@, u.password@) {
                Ok(true) => r == LoginStep::IssueToken(u),
                Ok(false) => r == LoginStep::Answer(LoginReply::InvalidPassword),
                Err(e) => r matches LoginStep::Answer(LoginReply::VerifyFailed { error }) && error@ == e,
            },
        },
{
    let u = match user {
        Some(u) => u,
        None => return LoginStep::Answer(LoginReply::UsernameNotFound),
    };
    match verify_password(attempt, u.password.as_str()) {
        Ok(true) => LoginStep::IssueToken(u),
        Ok(false) => LoginStep::Answer(LoginReply::InvalidPassword),
        Err(e) => LoginStep::Answer(LoginReply::VerifyFailed { error: e.message }),
    }
}

/// The answer to a successful sign-in given the outcome of issuing its token:
/// the token, or an empty token and the error text (which is logged).
pub fn login_success(user: Users, token: Result<String, JwtError>) -> (r: (LoginReply, Option<String>))
    ensures
        r.0 matches LoginReply::LoggedIn { profile, token: t } && profile_matches(profile, user) && match token {
            Ok(s) => t@ == s@ && r.1 is None,
            Err(e) => t@ == Seq::<char>::empty() && (r.1 matches Some(m) && m@ == e.message@),
        },
{
    let profile = profile_of(&user);
    match token {
        Ok(t) => (LoginReply::LoggedIn { profile, token: t }, None),
        Err(e) => (LoginReply::LoggedIn { profile, token: String::new() }, Some(e.message)),
    }
}

/// Whether `token` (with `log`, the text logged when none could be made) is
/// what issuing a token for `email` with `secret` gives: the token issued at
/// some reading of the clock, or an empty token where the clock could not be
/// read.
pub open spec fn login_token(email: Seq<char>, secret: Seq<u8>, token: Seq<char>, log: Option<String>) -> bool {
    match log {
        None => exists|now: int|
            0 <= now <= i64::MAX - TOKEN_LIFETIME_SECONDS && #[trigger] issued_token(email, secret, now, token),
        Some(m) => token == Seq::<char>::empty() && clock_failure(m@),
    }
}

/// Issues a token for a signed-in user (subject: the email) with `secret`,
/// expiring one day after the current time, and answers with the user's
/// profile and the token.
pub fn login_issue(user: Users, secret: &[u8]) -> (r: (LoginReply, Option<String>))
    ensures
        r.0 matches LoginReply::LoggedIn { profile, token } && profile_matches(profile, user) && login_token(
            user.email@,
            secret@,
            token@,
            r.1,
        ),
{
    let token = create_jwt(user.email.as_str(), secret);
    login_success(user, token)
}

/// Where a sign-in stands.
pub enum LoginState {
    /// The user with the requested username is being read.
    LookingUp(RequestData),
    /// The password matched; the signing secret is being read.
    Signing(Users),
    /// The request has been answered.
    Done,
}

/// What the server reports back to a sign-in.
pub enum LoginEvent {
    /// The user with the username, where there is one.
    Found(Option<Users>),
    /// The secret that tokens are signed with.
    Secret(Vec<u8>),
}

/// What a sign-in asks the server to do next.
pub enum LoginAction {
    /// Read the user with this username.
    LookUp(String),
    /// Read the secret that tokens are signed with.
    ReadSecret,
    /// Answer the request, logging the text where a token could not be made.
    Answer(LoginReply, Option<String>),
}

/// Whether an event answers the action of a state.
pub open spec fn login_event_fits(state: LoginState, event: LoginEvent) -> bool {
    match state {
        LoginState::LookingUp(_) => event is Found,
        LoginState::Signing(_) => event is Secret,
        LoginState::Done => false,
    }
}

/// A sign-in begins by reading the user with the requested username.
pub fn login_start(payload: RequestData) -> (r: (LoginState, LoginAction))
    ensures
        r.1 == LoginAction::LookUp(payload.username),
        r.0 == LoginState::LookingUp(payload),
{
    let username = payload.username.clone();
    (LoginState::LookingUp(payload), LoginAction::LookUp(username))
}

/// The next state and action of a sign-in, given what the server reports:
/// a token is issued only for a user whose stored hash accepts the password.
pub fn login_step(state: LoginState, event: LoginEvent) -> (r: (LoginState, LoginAction))
    requires
        login_event_fits(state, event),
    ensures
        match state {
            LoginState::LookingUp(p) => match event {
                LoginEvent::Found(user) => if signs_in(user, p.password@) {
                    r.1 == LoginAction::ReadSecret && r.0 is Signing && user == Some(r.0->Signing_0)
                } else {
                    r.0 == LoginState::Done && (r.1 matches LoginAction::Answer(reply, None) && match user {
                        None => reply == LoginReply::UsernameNotFound,
                        Some(u) => match bcrypt_verification(p.password@, u.password@) {
                            Err(e) => reply matches LoginReply::VerifyFailed { error } && error@ == e,
                            _ => reply == LoginReply::InvalidPassword,
                        },
                    })
                },
                _ => false,
            },
            LoginState::Signing(u) => match event {
                LoginEvent::Secret(secret) => r.0 == LoginState::Done && (r.1 matches LoginAction::Answer(
                    LoginReply::LoggedIn { profile, token },
                    log,
                ) && profile_matches(profile, u) && login_token(u.email@, secret@, token@, log)),
                _ => false,
            },
            LoginState::Done => false,
        },
{
    match state {
        LoginState::LookingUp(p) => match event {
            LoginEvent::Found(user) => match login_check(user, p.password.as_str()) {
                LoginStep::IssueToken(u) => (LoginState::Signing(u), LoginAction::ReadSecret),
                LoginStep::Answer(reply) => (LoginState::Done, LoginAction::Answer(reply, None)),
            },
            LoginEvent::Secret(_) => (LoginState::Done, LoginAction::Answer(LoginReply::UsernameNotFound, None)),
        },
        LoginState::Signing(u) => match event {
            LoginEvent::Secret(secret) => {
                let (reply, log) = login_issue(u, secret.as_slice());
                (LoginState::Done, LoginAction::Answer(reply, log))
            },
            LoginEvent::Found(_) => (LoginState::Done, LoginAction::Answer(LoginReply::UsernameNotFound, None)),
        },
        LoginState::Done => (LoginState::Done, LoginAction::Answer(LoginReply::UsernameNotFound, None)),
    }
}

} // verus!
