//! The service as one function: a request goes in, a response comes out.
//!
//! The response depends on the method, the path and the body of the request
//! and on nothing else: not on its query or headers, and not on any request
//! that came before.

use crate::error::{ServiceError, BAD_REQUEST, CREATED, NOT_FOUND, OK};
use crate::handlers::{create_user, created_user, greeting, root};
use crate::json::{json_parse, Json};
use crate::router::{resolve, route_of, Route};
use crate::schema::{request_of, user_json, username_key, CreateUserRequest, UserView};
use vstd::prelude::*;
use vstd::string::*;

verus! {

/// One header line of a request.
#[derive(Debug)]
pub struct Header {
    pub name: String,
    pub value: String,
}

/// A request as the transport hands it over.
#[derive(Debug)]
pub struct Request {
    /// The method, as sent: `GET`, `POST`, ...
    pub method: String,
    /// The path of the request target, without the query.
    pub path: String,
    /// The query of the request target, if it has one.
    pub query: Option<String>,
    pub headers: Vec<Header>,
    pub body: Vec<u8>,
}

/// What kind of body a response carries.
#[derive(Clone, Copy, Debug, PartialEq, Eq, Structural)]
pub enum Content {
    /// No body.
    Empty,
    /// Plain text.
    Text,
    /// A JSON document.
    Json,
}

/// A response for the transport to send.
#[derive(Debug)]
pub struct Response {
    pub status: u16,
    pub content: Content,
    pub body: String,
    /// The error that the response reports, if it reports one. It is not
    /// sent; the span of the request is tagged with it.
    pub error: Option<ServiceError>,
}

/// A request, as mathematics.
pub struct RequestView {
    pub method: Seq<char>,
    pub path: Seq<char>,
    pub query: Option<Seq<char>>,
    pub headers: Seq<(Seq<char>, Seq<char>)>,
    pub body: Seq<u8>,
}

/// A response, as mathematics.
pub struct ResponseView {
    pub status: u16,
    pub content: Content,
    pub body: Seq<char>,
    pub error: Option<ServiceError>,
}

impl View for Header {
    type V = (Seq<char>, Seq<char>);

    open spec fn view(&self) -> (Seq<char>, Seq<char>) {
        (self.name@, self.value@)
    }
}

impl View for Request {
    type V = RequestView;

    open spec fn view(&self) -> RequestView {
        RequestView {
            method: self.method@,
            path: self.path@,
            query: match self.query {
                Some(query) => Some(query@),
                None => None,
            },
            headers: self.headers@.map_values(|header: Header| header@),
            body: self.body@,
        }
    }
}

impl View for Response {
    type V = ResponseView;

    open spec fn view(&self) -> ResponseView {
        ResponseView {
            status: self.status,
            content: self.content,
            body: self.body@,
            error: self.error,
        }
    }
}

/// The response that carries a text.
pub open spec fn text_response(status: u16, body: Seq<char>) -> ResponseView {
    ResponseView { status, content: Content::Text, body, error: None }
}

/// The response that carries a JSON document.
pub open spec fn json_response(status: u16, body: Seq<char>) -> ResponseView {
    ResponseView { status, content: Content::Json, body, error: None }
}

/// The response to a malformed request: status 400, with the name of the
/// error as its body.
pub open spec fn malformed_response() -> ResponseView {
    ResponseView {
        status: BAD_REQUEST,
        content: Content::Text,
        body: ServiceError::MalformedRequest.spec_name(),
        error: Some(ServiceError::MalformedRequest),
    }
}

/// The response to a request that no route matches: status 404, no body.
pub open spec fn not_found_response() -> ResponseView {
    ResponseView {
        status: NOT_FOUND,
        content: Content::Empty,
        body: Seq::empty(),
        error: Some(ServiceError::RouteNotFound),
    }
}

/// The response that reports an error to the client; `None` for the errors
/// that no client is told of.
pub open spec fn error_response(error: ServiceError) -> Option<ResponseView> {
    match error {
        ServiceError::MalformedRequest => Some(malformed_response()),
        ServiceError::RouteNotFound => Some(not_found_response()),
        ServiceError::TelemetryExportFailure => None,
        ServiceError::BindFailure => None,
    }
}

/// The response that a request gets.
pub open spec fn response_of(request: RequestView) -> ResponseView {
    match route_of(request.method, request.path) {
        Some(Route::Root) => text_response(OK, greeting()),
        Some(Route::CreateUser) => match request_of(request.body) {
            Some(payload) => json_response(CREATED, user_json(created_user(payload.username))),
            None => malformed_response(),
        },
        None => not_found_response(),
    }
}

impl Response {
    /// Turns an error into the response that reports it. The two errors of
    /// request handling have one; the others are never shown to a client.
    pub fn from_error(error: ServiceError) -> (res: Option<Response>)
        ensures
            match error_response(error) {
                Some(response) => res matches Some(r) && r@ == response,
                None => res is None,
            },
    {
        match error {
            ServiceError::MalformedRequest => Some(
                Response {
                    status: BAD_REQUEST,
                    content: Content::Text,
                    body: String::from_str(error.name()),
                    error: Some(error),
                },
            ),
            ServiceError::RouteNotFound => Some(
                Response {
                    status: NOT_FOUND,
                    content: Content::Empty,
                    body: String::new(),
                    error: Some(error),
                },
            ),
            ServiceError::TelemetryExportFailure => None,
            ServiceError::BindFailure => None,
        }
    }
}

/// Answers a request: finds its route, checks its body where the route takes
/// one, runs the handler, and turns an error into the response that reports
/// it.
pub fn respond(request: &Request) -> (res: Response)
    ensures
        res@ == response_of(request@),
        request@.method =~= "GET"@ && request@.path =~= "/"@ ==> res.status == 200 && res.body@
            == "Hello, World!"@,
        request@.method =~= "POST"@ && request@.path =~= "/users"@ ==> match request_of(
            request@.body,
        ) {
            Some(payload) => res.status == 201 && res.body@ == user_json(
                UserView { id: 1337, username: payload.username },
            ),
            None => res.status == 400 && res.error == Some(ServiceError::MalformedRequest),
        },
        !(request@.method =~= "GET"@ && request@.path =~= "/"@) && !(request@.method =~= "POST"@
            && request@.path =~= "/users"@) ==> res.status == 404 && res.error == Some(
            ServiceError::RouteNotFound,
        ),
{
    proof {
        crate::router::lemma_route_table(request@.method, request@.path, Route::CreateUser);
    }
    let outcome = match resolve(request.method.as_str(), request.path.as_str()) {
        Ok(Route::Root) => {
            let (status, text) = root();
            Ok(
                Response {
                    status,
                    content: Content::Text,
                    body: String::from_str(text),
                    error: None,
                },
            )
        },
        Ok(Route::CreateUser) => match CreateUserRequest::from_body(request.body.as_slice()) {
            Ok(payload) => {
                let (status, user) = create_user(payload);
                Ok(Response { status, content: Content::Json, body: user.to_json(), error: None })
            },
            Err(error) => Err(error),
        },
        Err(error) => Err(error),
    };
    match outcome {
        Ok(response) => response,
        Err(error) => Response::from_error(error).unwrap(),
    }
}

/// Whether a body is malformed: it is no JSON document, or the document is no
/// object, or the object has no member `username`, or that member is no text.
pub open spec fn malformed(body: Seq<u8>) -> bool {
    match json_parse(body) {
        None => true,
        Some(Json::Object(members)) => !members.contains_key(username_key()) || !(
        members[username_key()] is Text),
        Some(_) => true,
    }
}

/// A body is malformed exactly when no request can be read out of it.
pub proof fn lemma_malformed_iff_unreadable(body: Seq<u8>)
    ensures
        malformed(body) <==> request_of(body) is None,
{
}

/// `POST /users` with a body that is a JSON object with a textual `username`
/// is answered with status 201 and the user of that name with id 1337,
/// written as JSON. The name may be any text, and the object may have other
/// members.
pub proof fn lemma_valid_body_creates_user(
    request: RequestView,
    members: Map<Seq<char>, Json>,
    name: Seq<char>,
)
    requires
        request.method == "POST"@,
        request.path == "/users"@,
        json_parse(request.body) == Some(Json::Object(members)),
        members.contains_key(username_key()),
        members[username_key()] == Json::Text(name),
    ensures
        response_of(request).status == 201,
        response_of(request).content == Content::Json,
        response_of(request).body == user_json(created_user(name)),
        response_of(request).error is None,
        created_user(name).id == 1337,
        created_user(name).username == name,
{
    crate::router::lemma_route_table(request.method, request.path, Route::CreateUser);
}

/// `POST /users` with a malformed body is answered with status 400 and
/// reports `MalformedRequest`.
pub proof fn lemma_malformed_body_is_rejected(request: RequestView)
    requires
        request.method == "POST"@,
        request.path == "/users"@,
        malformed(request.body),
    ensures
        response_of(request).status == 400,
        response_of(request).error == Some(ServiceError::MalformedRequest),
        response_of(request) == malformed_response(),
{
    crate::router::lemma_route_table(request.method, request.path, Route::CreateUser);
}

/// `GET /` is answered with status 200 and the greeting, whatever the query,
/// the headers and the body of the request are.
pub proof fn lemma_root_greets(request: RequestView)
    requires
        request.method == "GET"@,
        request.path == "/"@,
    ensures
        response_of(request).status == 200,
        response_of(request).content == Content::Text,
        response_of(request).body == "Hello, World!"@,
        response_of(request).error is None,
{
}

/// A request whose method and path are in no row of the route table is
/// answered with status 404 and reports `RouteNotFound`, whatever its body.
pub proof fn lemma_unknown_route_is_not_found(request: RequestView)
    requires
        !(request.method == "GET"@ && request.path == "/"@),
        !(request.method == "POST"@ && request.path == "/users"@),
    ensures
        response_of(request).status == 404,
        response_of(request).error == Some(ServiceError::RouteNotFound),
        response_of(request) == not_found_response(),
{
}

/// The query and the headers of a request do not bear on its response.
pub proof fn lemma_response_ignores_query_and_headers(a: RequestView, b: RequestView)
    requires
        a.method == b.method,
        a.path == b.path,
        a.body == b.body,
    ensures
        response_of(a) == response_of(b),
{
}

/// Two requests to create users are answered each on its own: whatever the
/// two names are, and in whatever order the requests are served, both users
/// get the id 1337 and each gets the name that its own request asked for.
pub proof fn lemma_created_users_share_the_id(
    a: RequestView,
    b: RequestView,
    name_a: Seq<char>,
    name_b: Seq<char>,
)
    requires
        a.method == "POST"@ && a.path == "/users"@,
        b.method == "POST"@ && b.path == "/users"@,
        request_of(a.body) matches Some(payload) && payload.username == name_a,
        request_of(b.body) matches Some(payload) && payload.username == name_b,
    ensures
        response_of(a) == json_response(201, user_json(UserView { id: 1337, username: name_a })),
        response_of(b) == json_response(201, user_json(UserView { id: 1337, username: name_b })),
{
    crate::router::lemma_route_table(a.method, a.path, Route::CreateUser);
    crate::router::lemma_route_table(b.method, b.path, Route::CreateUser);
}

} // verus!
