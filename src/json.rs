//! The JSON reading this client needs, from `serde_json`.
use vstd::prelude::*;

verus! {

/// `serde_json::Value`, carried as an opaque value: what the logic reads of
/// it goes through the functions below.
#[verifier::external_type_specification]
#[verifier::external_body]
pub struct ExValue(serde_json::Value);

/// The JSON document that `text` holds, as `serde_json` parses it; none where
/// `text` is not one JSON document.
pub uninterp spec fn parsed_json(text: Seq<char>) -> Option<serde_json::Value>;

/// The member `key` of a JSON object; none for a missing key or a value that
/// is not an object.
pub uninterp spec fn json_member(v: serde_json::Value, key: Seq<char>) -> Option<
    serde_json::Value,
>;

/// The text of a JSON string; none for a value that is not a string.
pub uninterp spec fn json_string(v: serde_json::Value) -> Option<Seq<char>>;

/// The elements of a JSON array; none for a value that is not an array.
pub uninterp spec fn json_array(v: serde_json::Value) -> Option<Seq<serde_json::Value>>;

/// Relies on `serde_json::from_str::<Value>`: the parsed document, or none on a
/// parse error.
#[verifier::external_body]
pub(crate) fn parse_json(text: &str) -> (r: Option<serde_json::Value>)
    ensures
        r == parsed_json(text@),
{
    serde_json::from_str::<serde_json::Value>(text).ok()
}

/// Relies on `serde_json::Value::get` with a `&str` index: the member of an
/// object under that key.
#[verifier::external_body]
pub(crate) fn member(v: &serde_json::Value, key: &str) -> (r: Option<serde_json::Value>)
    ensures
        r == json_member(*v, key@),
{
    v.get(key).cloned()
}

/// Relies on `serde_json::Value::as_str`: the text of a JSON string.
#[verifier::external_body]
pub(crate) fn as_text(v: &serde_json::Value) -> (r: Option<String>)
    ensures
        match r {
            Some(s) => json_string(*v) == Some(s@),
            None => json_string(*v) is None,
        },
{
    v.as_str().map(String::from)
}

/// Relies on `serde_json::Value::as_array`: the elements of a JSON array.
#[verifier::external_body]
pub(crate) fn as_list(v: &serde_json::Value) -> (r: Option<Vec<serde_json::Value>>)
    ensures
        match r {
            Some(a) => json_array(*v) == Some(a@),
            None => json_array(*v) is None,
        },
{
    v.as_array().cloned()
}

/// The string member `key` of the JSON object that `text` holds.
pub open spec fn string_member(text: Seq<char>, key: Seq<char>) -> Option<Seq<char>> {
    match parsed_json(text) {
        Some(v) => string_member_of(v, key),
        None => None,
    }
}

/// The string member `key` of the JSON value `v`.
pub open spec fn string_member_of(v: serde_json::Value, key: Seq<char>) -> Option<Seq<char>> {
    match json_member(v, key) {
        Some(m) => json_string(m),
        None => None,
    }
}

/// The string member `key` of the JSON value `v`, or none.
pub fn text_member_of(v: &serde_json::Value, key: &str) -> (r: Option<String>)
    ensures
        match r {
            Some(s) => string_member_of(*v, key@) == Some(s@),
            None => string_member_of(*v, key@) is None,
        },
{
    match member(v, key) {
        Some(m) => as_text(&m),
        None => None,
    }
}

/// The string member `key` of the JSON object that `text` holds, or none.
pub fn text_member(text: &str, key: &str) -> (r: Option<String>)
    ensures
        match r {
            Some(s) => string_member(text@, key@) == Some(s@),
            None => string_member(text@, key@) is None,
        },
{
    match parse_json(text) {
        Some(v) => text_member_of(&v, key),
        None => None,
    }
}

} // verus!
