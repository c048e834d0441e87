use axumtest::error::ServiceError;
use axumtest::router::{resolve, Route};

#[test]
fn get_root_resolves_to_root() {
    assert_eq!(resolve("GET", "/"), Ok(Route::Root));
}

#[test]
fn post_users_resolves_to_create_user() {
    assert_eq!(resolve("POST", "/users"), Ok(Route::CreateUser));
}

#[test]
fn swapped_methods_resolve_to_nothing() {
    assert_eq!(resolve("POST", "/"), Err(ServiceError::RouteNotFound));
    assert_eq!(resolve("GET", "/users"), Err(ServiceError::RouteNotFound));
}

#[test]
fn near_misses_resolve_to_nothing() {
    for (method, path) in [
        ("GET", ""),
        ("GET", "/ "),
        ("GET", "/?"),
        ("GET", "/index.html"),
        ("Get", "/"),
        ("GET ", "/"),
        ("POST", "/user"),
        ("POST", "/users/"),
        ("POST", "/users/1"),
        ("POST", "users"),
        ("PATCH", "/users"),
        ("OPTIONS", "/"),
    ] {
        assert_eq!(resolve(method, path), Err(ServiceError::RouteNotFound), "{} {}", method, path);
    }
}

#[test]
fn each_route_resolves_from_its_own_row() {
    for route in [Route::Root, Route::CreateUser] {
        assert_eq!(resolve(route.method(), route.path()), Ok(route));
    }
}

#[test]
fn routes_are_named_after_their_handlers() {
    assert_eq!(Route::Root.name(), "root");
    assert_eq!(Route::CreateUser.name(), "create_user");
    assert_eq!((Route::Root.method(), Route::Root.path()), ("GET", "/"));
    assert_eq!((Route::CreateUser.method(), Route::CreateUser.path()), ("POST", "/users"));
}
