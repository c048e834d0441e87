use axumtest::error::ServiceError;
use axumtest::handlers::{create_user, root, USER_ID};
use axumtest::schema::{CreateUserRequest, User};
use serde_json::{Number, Value};

fn object(members: Vec<(&str, Value)>) -> Value {
    let mut map = serde_json::Map::new();
    for (key, value) in members {
        map.insert(String::from(key), value);
    }
    Value::Object(map)
}

#[test]
fn request_is_read_from_an_object_with_a_textual_username() {
    let document = object(vec![("username", Value::String(String::from("alice")))]);
    let request = CreateUserRequest::from_document(&document).unwrap();
    assert_eq!(request.username, "alice");
}

#[test]
fn request_is_read_whatever_else_the_object_holds() {
    let document = object(vec![
        ("id", Value::Number(Number::from(7u64))),
        ("username", Value::String(String::from("bob"))),
        ("admin", Value::Bool(true)),
    ]);
    let request = CreateUserRequest::from_document(&document).unwrap();
    assert_eq!(request.username, "bob");
}

#[test]
fn request_is_not_read_from_an_object_without_username() {
    let document = object(vec![("name", Value::String(String::from("alice")))]);
    assert_eq!(
        CreateUserRequest::from_document(&document).unwrap_err(),
        ServiceError::MalformedRequest
    );
    assert_eq!(
        CreateUserRequest::from_document(&object(vec![])).unwrap_err(),
        ServiceError::MalformedRequest
    );
}

#[test]
fn request_is_not_read_where_username_is_no_text() {
    for value in [
        Value::Null,
        Value::Bool(false),
        Value::Number(Number::from(1u64)),
        Value::Array(vec![Value::String(String::from("alice"))]),
        object(vec![("username", Value::String(String::from("alice")))]),
    ] {
        let document = object(vec![("username", value)]);
        assert_eq!(
            CreateUserRequest::from_document(&document).unwrap_err(),
            ServiceError::MalformedRequest
        );
    }
}

#[test]
fn request_is_not_read_from_a_document_that_is_no_object() {
    for document in [
        Value::Null,
        Value::Bool(true),
        Value::Number(Number::from(1u64)),
        Value::String(String::from("username")),
        Value::Array(vec![Value::String(String::from("username"))]),
        Value::Array(vec![object(vec![("username", Value::String(String::from("alice")))])]),
    ] {
        assert_eq!(
            CreateUserRequest::from_document(&document).unwrap_err(),
            ServiceError::MalformedRequest
        );
    }
}

#[test]
fn request_is_read_from_a_body() {
    let request = CreateUserRequest::from_body(b"{\"username\":\"carol\"}").unwrap();
    assert_eq!(request.username, "carol");
    let request = CreateUserRequest::from_body(b"{\"username\":\"line\\nbreak \\u00e9\"}").unwrap();
    assert_eq!(request.username, "line\nbreak \u{e9}");
}

#[test]
fn request_is_not_read_from_a_malformed_body() {
    for body in ["", "{", "[]", "{}", "{\"username\":5}", "{\"username\":\"x\"} trailing"] {
        assert_eq!(
            CreateUserRequest::from_body(body.as_bytes()).unwrap_err(),
            ServiceError::MalformedRequest,
            "{}",
            body
        );
    }
}

#[test]
fn user_is_written_as_json() {
    let user = User { id: 1337, username: String::from("alice") };
    assert_eq!(user.to_json(), "{\"id\":1337,\"username\":\"alice\"}");
}

#[test]
fn user_is_written_with_any_id() {
    assert_eq!(User { id: 0, username: String::from("z") }.to_json(), "{\"id\":0,\"username\":\"z\"}");
    assert_eq!(
        User { id: u64::MAX, username: String::new() }.to_json(),
        "{\"id\":18446744073709551615,\"username\":\"\"}"
    );
}

#[test]
fn user_name_is_quoted_and_escaped() {
    let user = User { id: 1, username: String::from("say \"hi\" \\ \t\r\n \u{8}\u{c}\u{1f} / é 😀") };
    assert_eq!(
        user.to_json(),
        "{\"id\":1,\"username\":\"say \\\"hi\\\" \\\\ \\t\\r\\n \\b\\f\\u001f / é 😀\"}"
    );
}

#[test]
fn written_user_reads_back() {
    let user = User { id: 42, username: String::from("quote\" and \\ slash") };
    let document: Value = serde_json::from_str(&user.to_json()).unwrap();
    assert_eq!(document.get("id").and_then(Value::as_u64), Some(42));
    assert_eq!(document.get("username").and_then(Value::as_str), Some("quote\" and \\ slash"));
    assert_eq!(document.as_object().unwrap().len(), 2);
}

#[test]
fn root_handler_greets_with_ok() {
    assert_eq!(root(), (200, "Hello, World!"));
}

#[test]
fn create_user_handler_gives_the_fixed_id() {
    assert_eq!(USER_ID, 1337);
    let (status, user) = create_user(CreateUserRequest { username: String::from("alice") });
    assert_eq!(status, 201);
    assert_eq!(user.id, 1337);
    assert_eq!(user.username, "alice");
}

#[test]
fn create_user_handler_copies_the_name_verbatim() {
    for name in ["", " padded ", "MiXeD", "tab\tin", "日本語"] {
        let (status, user) = create_user(CreateUserRequest { username: String::from(name) });
        assert_eq!(status, 201);
        assert_eq!(user.id, 1337);
        assert_eq!(user.username, name);
    }
}
