//! The boundary to `serde_json`.
//!
//! Nothing in this module is proved. Each item states, of one function of
//! `serde_json`, what the rest of the crate relies on.

use vstd::prelude::*;

verus! {

/// A JSON document as a mathematical tree.
///
/// Numbers are not told apart: nothing in this crate reads one.
pub enum Json {
    Null,
    Bool(bool),
    Number,
    Text(Seq<char>),
    Array(Seq<Json>),
    Object(Map<Seq<char>, Json>),
}

/// `serde_json::Value`, a parsed JSON document. Nothing inside it is seen
/// here: it is read through `member` and `text`.
#[verifier::external_type_specification]
#[verifier::external_body]
pub struct ExValue(serde_json::Value);

/// `serde_json::Error`, the error of a failed parse. It is only passed on.
#[verifier::external_type_specification]
#[verifier::external_body]
pub struct ExError(serde_json::Error);

/// The tree that a `serde_json::Value` holds: a `Value::String` is a `Text`
/// of the same characters, and a `Value::Object` is an `Object` with the same
/// keys, each leading to the tree of its member. `member` and `text` say so
/// of what they return.
pub uninterp spec fn json_tree(value: serde_json::Value) -> Json;

/// The document that `serde_json::from_slice` reads from `body`, or `None`
/// where it reports an error.
pub uninterp spec fn json_parse(body: Seq<u8>) -> Option<Json>;

/// `serde_json::from_slice::<Value>`: parses a whole body as one JSON
/// document. The outcome depends on the bytes alone.
#[verifier::external_body]
pub(crate) fn parse(body: &[u8]) -> (res: Result<serde_json::Value, serde_json::Error>)
    ensures
        match res {
            Ok(value) => json_parse(body@) == Some(json_tree(value)),
            Err(_) => json_parse(body@) is None,
        },
{
    serde_json::from_slice::<serde_json::Value>(body)
}

/// `serde_json::Value::get` with a string index: the member of an object
/// under `key`, and `None` where the value is no object or has no such member.
#[verifier::external_body]
pub(crate) fn member<'a>(value: &'a serde_json::Value, key: &str) -> (res: Option<
    &'a serde_json::Value,
>)
    ensures
        match res {
            Some(found) => json_tree(*value) matches Json::Object(members) && members.contains_key(
                key@,
            ) && members[key@] == json_tree(*found),
            None => !(json_tree(*value) matches Json::Object(members) && members.contains_key(
                key@,
            )),
        },
{
    value.get(key)
}

/// `serde_json::Value::as_str`: the text of a JSON string, and `None` for
/// every other kind of value.
#[verifier::external_body]
pub(crate) fn text<'a>(value: &'a serde_json::Value) -> (res: Option<&'a str>)
    ensures
        match res {
            Some(s) => json_tree(*value) == Json::Text(s@),
            None => !(json_tree(*value) is Text),
        },
{
    value.as_str()
}

/// The JSON string literal that `serde_json::to_string` writes for a text:
/// the text between double quotes, with the characters escaped that JSON
/// does not allow bare.
pub uninterp spec fn json_quote(text: Seq<char>) -> Seq<char>;

/// `serde_json::to_string` on a `str`: the text as a JSON string literal.
/// It writes into memory and a `str` always serialises, so it does not fail;
/// the literal depends on the text alone.
#[verifier::external_body]
pub(crate) fn quote(text: &str) -> (res: Result<String, serde_json::Error>)
    ensures
        match res {
            Ok(literal) => literal@ == json_quote(text@),
            Err(_) => false,
        },
{
    serde_json::to_string(text)
}

} // verus!
