//! The route table: which handler answers which method and path.

use crate::error::ServiceError;
use crate::text::same_text;
use vstd::prelude::*;

verus! {

/// A route of the service, named after its handler.
#[derive(Clone, Copy, Debug, PartialEq, Eq, Structural)]
pub enum Route {
    /// `GET /`
    Root,
    /// `POST /users`
    CreateUser,
}

/// The route table. Methods and paths are compared letter for letter, so
/// `get` is no method of any route and `/users/` is no path of any.
pub open spec fn route_of(method: Seq<char>, path: Seq<char>) -> Option<Route> {
    if method =~= "GET"@ && path =~= "/"@ {
        Some(Route::Root)
    } else if method =~= "POST"@ && path =~= "/users"@ {
        Some(Route::CreateUser)
    } else {
        None
    }
}

impl Route {
    /// The method that the route answers.
    pub open spec fn spec_method(self) -> Seq<char> {
        match self {
            Route::Root => "GET"@,
            Route::CreateUser => "POST"@,
        }
    }

    /// The path that the route answers.
    pub open spec fn spec_path(self) -> Seq<char> {
        match self {
            Route::Root => "/"@,
            Route::CreateUser => "/users"@,
        }
    }

    /// The name of the route's handler.
    pub open spec fn spec_name(self) -> Seq<char> {
        match self {
            Route::Root => "root"@,
            Route::CreateUser => "create_user"@,
        }
    }

    /// The method that the route answers.
    pub fn method(self) -> (res: &'static str)
        ensures
            res@ == self.spec_method(),
    {
        match self {
            Route::Root => "GET",
            Route::CreateUser => "POST",
        }
    }

    /// The path that the route answers.
    pub fn path(self) -> (res: &'static str)
        ensures
            res@ == self.spec_path(),
    {
        match self {
            Route::Root => "/",
            Route::CreateUser => "/users",
        }
    }

    /// The name of the route's handler.
    pub fn name(self) -> (res: &'static str)
        ensures
            res@ == self.spec_name(),
    {
        match self {
            Route::Root => "root",
            Route::CreateUser => "create_user",
        }
    }
}

/// Looks a method and path up in the route table. Everything that is not in
/// the table is `RouteNotFound`.
pub fn resolve(method: &str, path: &str) -> (res: Result<Route, ServiceError>)
    ensures
        res == match route_of(method@, path@) {
            Some(route) => Ok::<Route, ServiceError>(route),
            None => Err::<Route, ServiceError>(ServiceError::RouteNotFound),
        },
{
    if same_text(method, "GET") && same_text(path, "/") {
        Ok(Route::Root)
    } else if same_text(method, "POST") && same_text(path, "/users") {
        Ok(Route::CreateUser)
    } else {
        Err(ServiceError::RouteNotFound)
    }
}

/// Each route is found under its own method and path, and under no other:
/// the table has exactly these two rows.
pub proof fn lemma_route_table(method: Seq<char>, path: Seq<char>, route: Route)
    ensures
        route_of(method, path) == Some(route) <==> method == route.spec_method() && path
            == route.spec_path(),
{
    reveal_strlit("GET");
    reveal_strlit("POST");
    reveal_strlit("/");
    reveal_strlit("/users");
    assert("GET"@.len() != "POST"@.len());
    assert("/"@.len() != "/users"@.len());
}

} // verus!
