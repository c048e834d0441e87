//! The shapes that cross the HTTP boundary: what a client sends to create a
//! user, and the user that is sent back.

use crate::error::ServiceError;
use crate::json::{json_parse, json_quote, json_tree, member, parse, quote, text, Json};
use crate::text::{decimal, to_decimal};
use vstd::prelude::*;
use vstd::string::*;

verus! {

/// The body of a request to create a user.
#[derive(Debug)]
pub struct CreateUserRequest {
    pub username: String,
}

/// A user as the service reports it.
#[derive(Debug)]
pub struct User {
    pub id: u64,
    pub username: String,
}

/// A request to create a user, as mathematics: the name asked for.
pub struct CreateUserRequestView {
    pub username: Seq<char>,
}

/// A user, as mathematics.
pub struct UserView {
    pub id: nat,
    pub username: Seq<char>,
}

impl View for CreateUserRequest {
    type V = CreateUserRequestView;

    open spec fn view(&self) -> CreateUserRequestView {
        CreateUserRequestView { username: self.username@ }
    }
}

impl View for User {
    type V = UserView;

    open spec fn view(&self) -> UserView {
        UserView { id: self.id as nat, username: self.username@ }
    }
}

/// The name of the member that holds the user's name.
pub open spec fn username_key() -> Seq<char> {
    "username"@
}

/// What a JSON document asks for: the request it spells out, if it is an
/// object whose member `username` is a text. Other members are ignored, and
/// the text may be empty.
pub open spec fn request_in(document: Json) -> Option<CreateUserRequestView> {
    match document {
        Json::Object(members) => if members.contains_key(username_key()) {
            match members[username_key()] {
                Json::Text(name) => Some(CreateUserRequestView { username: name }),
                _ => None,
            }
        } else {
            None
        },
        _ => None,
    }
}

/// What a request body asks for: the request in the JSON document that the
/// body holds, if it holds one.
pub open spec fn request_of(body: Seq<u8>) -> Option<CreateUserRequestView> {
    match json_parse(body) {
        Some(document) => request_in(document),
        None => None,
    }
}

/// A user written as a JSON object, `id` first, without spaces.
pub open spec fn user_json(user: UserView) -> Seq<char> {
    "{\"id\":"@ + decimal(user.id) + ",\"username\":"@ + json_quote(user.username) + "}"@
}

impl CreateUserRequest {
    /// Reads a request out of a parsed JSON document.
    ///
    /// Succeeds exactly on an object with a textual member `username`, and
    /// then holds that text unchanged. Every other document is malformed.
    pub fn from_document(document: &serde_json::Value) -> (res: Result<
        CreateUserRequest,
        ServiceError,
    >)
        ensures
            match request_in(json_tree(*document)) {
                Some(request) => res matches Ok(r) && r@ == request,
                None => res == Err::<CreateUserRequest, ServiceError>(
                    ServiceError::MalformedRequest,
                ),
            },
    {
        match member(document, "username") {
            Some(found) => match text(found) {
                Some(name) => Ok(CreateUserRequest { username: name.to_owned() }),
                None => Err(ServiceError::MalformedRequest),
            },
            None => Err(ServiceError::MalformedRequest),
        }
    }

    /// Reads a request out of a request body.
    ///
    /// Succeeds exactly when the body is one JSON document and that document
    /// is an object with a textual member `username`. Every other body is
    /// malformed.
    pub fn from_body(body: &[u8]) -> (res: Result<CreateUserRequest, ServiceError>)
        ensures
            match request_of(body@) {
                Some(request) => res matches Ok(r) && r@ == request,
                None => res == Err::<CreateUserRequest, ServiceError>(
                    ServiceError::MalformedRequest,
                ),
            },
    {
        match parse(body) {
            Ok(document) => CreateUserRequest::from_document(&document),
            Err(_) => Err(ServiceError::MalformedRequest),
        }
    }
}

impl User {
    /// Writes the user as a JSON object.
    pub fn to_json(&self) -> (res: String)
        ensures
            res@ == user_json(self@),
    {
        let mut res = String::from_str("{\"id\":");
        res.append(to_decimal(self.id).as_str());
        res.append(",\"username\":");
        res.append(quote(self.username.as_str()).unwrap().as_str());
        res.append("}");
        res
    }
}

} // verus!
