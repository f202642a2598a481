use vstd::prelude::*;

use crate::order::views;

verus! {

/// The strings of a JSON array of strings, as serde_json reads it (`None` when
/// the text is not such an array).
pub uninterp spec fn json_strings(raw: Seq<char>) -> Option<Seq<Seq<char>>>;

/// The JSON text that serde_json writes for a list of strings.
pub uninterp spec fn json_array_text(items: Seq<Seq<char>>) -> Seq<char>;

/// Whether the JSON value a text holds is an object with a member `key`, as
/// serde_json reads the text (`None` when the text is not JSON).
pub uninterp spec fn json_has_member(raw: Seq<char>, key: Seq<char>) -> Option<bool>;

/// The string a JSON text holds when the text is one JSON string, as
/// serde_json reads it (`None` for any other text).
pub uninterp spec fn json_string_value(raw: Seq<char>) -> Option<Seq<char>>;

/// The compact text serde_json writes for the JSON value a text holds
/// (`None` when the text is not JSON).
pub uninterp spec fn json_serialized(raw: Seq<char>) -> Option<Seq<char>>;

/// Parses a JSON array of strings with `serde_json::from_str::<Vec<String>>`.
/// The result is named by `json_strings`: a function of the text alone.
/// On failure the error is serde_json's message, of which nothing is stated.
#[verifier::external_body]
pub(crate) fn parse_strings(raw: &str) -> (r: Result<Vec<String>, String>)
    ensures
        match r {
            Ok(v) => json_strings(raw@) == Some(views(v@)),
            Err(_) => json_strings(raw@) is None,
        },
{
    serde_json::from_str::<Vec<String>>(raw).map_err(|error| error.to_string())
}

/// Writes a list of strings with `serde_json::to_string`, which cannot fail
/// for strings. The text is named by `json_array_text`.
#[verifier::external_body]
pub(crate) fn strings_text(items: &Vec<String>) -> (r: String)
    ensures
        r@ == json_array_text(views(items@)),
{
    serde_json::to_string(items).unwrap_or_default()
}

/// Parses a JSON value with `serde_json::from_str` and tells whether it has
/// a member `key` (`Value::get`). The result is named by `json_has_member`:
/// a function of the text and the key alone.
#[verifier::external_body]
pub(crate) fn has_member(raw: &str, key: &str) -> (r: Option<bool>)
    ensures
        r == json_has_member(raw@, key@),
{
    let value = serde_json::from_str::<serde_json::Value>(raw).ok()?;
    Some(value.get(key).is_some())
}

/// Reads a text as one JSON string with `serde_json::from_str::<String>`.
/// The result is named by `json_string_value`.
#[verifier::external_body]
pub(crate) fn string_value(raw: &str) -> (r: Option<String>)
    ensures
        match r {
            Some(s) => json_string_value(raw@) == Some(s@),
            None => json_string_value(raw@) is None,
        },
{
    serde_json::from_str::<String>(raw).ok()
}

/// Parses a JSON value with `serde_json::from_str` and writes it back with
/// `to_string`. The result is named by `json_serialized`.
#[verifier::external_body]
pub(crate) fn serialized(raw: &str) -> (r: Option<String>)
    ensures
        match r {
            Some(s) => json_serialized(raw@) == Some(s@),
            None => json_serialized(raw@) is None,
        },
{
    let value = serde_json::from_str::<serde_json::Value>(raw).ok()?;
    Some(value.to_string())
}

/// The display text of a stored JSON value: the string itself for a JSON
/// string, else the compact JSON text (`None` when the text is not JSON).
pub open spec fn shown_spec(raw: Seq<char>) -> Option<Seq<char>> {
    match json_string_value(raw) {
        Some(t) => Some(t),
        None => json_serialized(raw),
    }
}

/// The display text of a stored JSON value.
pub fn value_text(raw: &str) -> (r: Option<String>)
    ensures
        match r {
            Some(s) => shown_spec(raw@) == Some(s@),
            None => shown_spec(raw@) is None,
        },
{
    match string_value(raw) {
        Some(t) => Some(t),
        None => serialized(raw),
    }
}

/// The string member `key` of a JSON object, as serde_json reads the text
/// (`None` when the text is not JSON, or has no such string member).
pub uninterp spec fn json_str_member(raw: Seq<char>, key: Seq<char>) -> Option<Seq<char>>;

/// Parses a JSON value with `serde_json::from_str` and reads its member `key`
/// as a string (`Value::get`, `Value::as_str`). The result is named by
/// `json_str_member`: a function of the text and the key alone.
#[verifier::external_body]
pub(crate) fn str_member(raw: &str, key: &str) -> (r: Option<String>)
    ensures
        match r {
            Some(s) => json_str_member(raw@, key@) == Some(s@),
            None => json_str_member(raw@, key@) is None,
        },
{
    let value = serde_json::from_str::<serde_json::Value>(raw).ok()?;
    value.get(key).and_then(serde_json::Value::as_str).map(str::to_string)
}

/// The JSON text that serde_json writes for a string: the string quoted,
/// with its escapes.
pub uninterp spec fn json_string_text(s: Seq<char>) -> Seq<char>;

/// Writes a string as JSON with `serde_json::to_string`, which cannot fail
/// for a string. The text is named by `json_string_text`.
#[verifier::external_body]
pub(crate) fn string_text(s: &str) -> (r: String)
    ensures
        r@ == json_string_text(s@),
{
    serde_json::to_string(s).unwrap_or_default()
}

} // verus!
