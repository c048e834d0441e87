//! The handlers: each takes what the router and the schema have already
//! accepted and says what is sent back, status first.

use crate::error::{CREATED, OK};
use crate::schema::{CreateUserRequest, User, UserView};
use vstd::prelude::*;

verus! {

/// The id that every created user gets. Nothing is stored, so nothing is
/// counted: asking twice gives the same id.
pub const USER_ID: u64 = 1337;

/// The text that the root route answers with.
pub open spec fn greeting() -> Seq<char> {
    "Hello, World!"@
}

/// The user that is created for a name.
pub open spec fn created_user(username: Seq<char>) -> UserView {
    UserView { id: USER_ID as nat, username }
}

/// Answers the root route: always the greeting, with status 200.
pub fn root() -> (res: (u16, &'static str))
    ensures
        res.0 == OK,
        res.1@ == greeting(),
{
    (OK, "Hello, World!")
}

/// Creates a user from a request that the schema has accepted: the user gets
/// the fixed id and the requested name, letter for letter, with status 201.
pub fn create_user(payload: CreateUserRequest) -> (res: (u16, User))
    ensures
        res.0 == CREATED,
        res.1@ == created_user(payload@.username),
{
    let user = User { id: USER_ID, username: payload.username };
    (CREATED, user)
}

} // verus!
