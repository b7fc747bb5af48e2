//! Reading one user by id.

use vstd::prelude::*;
use crate::utils::text::text;

verus! {

/// A user as read by id, without password.
pub struct Users {
    pub id: i64,
    pub firstname: String,
    pub lastname: String,
    pub email: String,
    pub mobile: String,
    pub username: String,
    pub roles: String,
    pub isactivated: i64,
    pub isblocked: i64,
    pub mailtoken: i64,
    pub userpic: String,
    pub qrcodeurl: Option<String>,
}

/// What a read by id is answered.
pub enum UserIdReply {
    /// The user.
    Found(Users),
    /// No user has the id.
    NotFound,
}

impl UserIdReply {
    /// The text of a reply without a user.
    pub open spec fn message_text(self) -> Seq<char> {
        match self {
            UserIdReply::Found(_) => Seq::empty(),
            UserIdReply::NotFound => "User ID not found.."@,
        }
    }

    /// The HTTP status: 200 with the user, 404 Not Found without.
    pub fn status(&self) -> (r: u16)
        ensures
            self is Found ==> r == 200,
            self is NotFound ==> r == 404,
    {
        match self {
            UserIdReply::Found(_) => 200,
            UserIdReply::NotFound => 404,
        }
    }

    /// The text of a reply without a user (empty with one).
    pub fn message(&self) -> (r: String)
        ensures
            r@ == self.message_text(),
    {
        match self {
            UserIdReply::Found(_) => String::new(),
            UserIdReply::NotFound => text("User ID not found.."),
        }
    }
}

/// Whether the user is read, once the users with the id have been counted.
pub fn user_exists(count: i64) -> (r: bool)
    ensures
        r == (count > 0),
{
    count > 0
}

/// Where a read by id stands.
pub enum UserIdState {
    /// The users with the id are being counted.
    Counting,
    /// The user is being read.
    Reading,
    /// The request has been answered.
    Done,
}

/// What the database reports back to a read by id.
pub enum UserIdEvent {
    /// The number of users with the id.
    Counted(i64),
    /// The user with the id.
    Read(Users),
}

/// What a read by id asks the server to do next.
pub enum UserIdAction {
    /// Count the users with the id.
    Count,
    /// Read the user with the id.
    Read,
    /// Answer the request.
    Answer(UserIdReply),
}

/// A read by id begins by counting the users with the id.
pub fn userid_start() -> (r: (UserIdState, UserIdAction))
    ensures
        r == (UserIdState::Counting, UserIdAction::Count),
{
    (UserIdState::Counting, UserIdAction::Count)
}

/// The next state and action of a read by id, given what the database reports:
/// the user is read only where one has the id.
pub fn userid_step(state: UserIdState, event: UserIdEvent) -> (r: (UserIdState, UserIdAction))
    requires
        state is Counting ==> event is Counted,
        state is Reading ==> event is Read,
        !(state is Done),
    ensures
        match state {
            UserIdState::Counting => match event {
                UserIdEvent::Counted(n) => if n > 0 {
                    r == (UserIdState::Reading, UserIdAction::Read)
                } else {
                    r == (UserIdState::Done, UserIdAction::Answer(UserIdReply::NotFound))
                },
                _ => false,
            },
            UserIdState::Reading => match event {
                UserIdEvent::Read(u) => r == (UserIdState::Done, UserIdAction::Answer(UserIdReply::Found(u))),
                _ => false,
            },
            UserIdState::Done => false,
        },
{
    match state {
        UserIdState::Counting => match event {
            UserIdEvent::Counted(n) => if user_exists(n) {
                (UserIdState::Reading, UserIdAction::Read)
            } else {
                (UserIdState::Done, UserIdAction::Answer(UserIdReply::NotFound))
            },
            UserIdEvent::Read(u) => (UserIdState::Done, UserIdAction::Answer(UserIdReply::Found(u))),
        },
        UserIdState::Reading => match event {
            UserIdEvent::Read(u) => (UserIdState::Done, UserIdAction::Answer(UserIdReply::Found(u))),
            UserIdEvent::Counted(_) => (UserIdState::Done, UserIdAction::Answer(UserIdReply::NotFound)),
        },
        UserIdState::Done => (UserIdState::Done, UserIdAction::Answer(UserIdReply::NotFound)),
    }
}

} // verus!
