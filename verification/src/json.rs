use serde_json::Value;
use vstd::prelude::*;

verus! {

/// A JSON value of any kind: `serde_json::Value`.
#[verifier::external_type_specification]
#[verifier::external_body]
pub struct ExValue(Value);

/// Why a text could not be read as JSON: `serde_json::Error`.
#[verifier::external_type_specification]
#[verifier::external_body]
pub struct ExJsonError(serde_json::Error);

/// The string members of a JSON value: where the value is an object, each of its keys whose
/// value is a JSON string, mapped to that string; no key at all where the value is anything else.
pub uninterp spec fn string_members(value: Value) -> Map<Seq<char>, Seq<char>>;

/// What a text holds when it is read as one JSON document: `None` where it is not one, else the
/// string members of the value that it denotes.
pub uninterp spec fn json_document(text: Seq<char>) -> Option<Map<Seq<char>, Seq<char>>>;

/// Reads a text as one JSON document.
///
/// Calls `serde_json::from_str` for a `serde_json::Value`, which takes one JSON document of any
/// kind, within the limits of its reader, and fails on every other text. The contract gives the
/// outcome the name [`json_document`]: the call succeeds exactly where that is `Some`, with a
/// value that has those string members.
#[verifier::external_body]
pub(crate) fn parse_json(text: &str) -> (parsed: Result<Value, serde_json::Error>)
    ensures
        match parsed {
            Ok(value) => json_document(text@) == Some(string_members(value)),
            Err(_) => json_document(text@) is None,
        },
{
    serde_json::from_str::<Value>(text)
}

/// The string stored in a JSON object under a key.
///
/// Calls `Value::get` with the key and `Value::as_str` on what it finds. `get` hands out a
/// member of an object and nothing for any other value; `as_str` hands out the text of a JSON
/// string and nothing for any other value. So the result is what [`string_members`] holds
/// under the key.
#[verifier::external_body]
pub(crate) fn string_member(value: &Value, key: &str) -> (found: Option<String>)
    ensures
        match found {
            Some(text) => string_members(*value).contains_key(key@) && string_members(
                *value,
            )[key@] == text@,
            None => !string_members(*value).contains_key(key@),
        },
{
    match value.get(key) {
        Some(member) => match member.as_str() {
            Some(text) => Some(text.to_owned()),
            None => None,
        },
        None => None,
    }
}

} // verus!
