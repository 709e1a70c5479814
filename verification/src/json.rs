//! JSON values, as `serde_json` parses and reads them.

use serde_json::Value;
use vstd::prelude::*;

verus! {

/// A JSON value of serde_json. Opaque here; read through the functions below.
#[verifier::external_type_specification]
#[verifier::external_body]
pub struct ExValue(serde_json::Value);

/// Why serde_json refused a text. Opaque here.
#[verifier::external_type_specification]
#[verifier::external_body]
pub struct ExJsonError(serde_json::Error);

/// The JSON value that a text holds, or `None` where the text is not one
/// well-formed JSON value and nothing else, or nests deeper than the parser
/// follows.
pub uninterp spec fn json_parsed(text: Seq<u8>) -> Option<Value>;

/// The members of a JSON object by their keys; the empty map for a value that
/// is no object.
pub uninterp spec fn json_members(value: Value) -> Map<Seq<char>, Value>;

/// The number that a JSON value holds, where it is an integer from 0 to
/// `u64::MAX`; `None` for every other value.
pub uninterp spec fn json_uint(value: Value) -> Option<u64>;

/// The text that a JSON value holds, where it is a string; `None` for every
/// other value.
pub uninterp spec fn json_text(value: Value) -> Option<Seq<char>>;

/// `serde_json::from_slice` into a `Value`. Trusted: the outcome depends on
/// the bytes alone; a value comes back exactly when the parser accepts the
/// bytes, and an error otherwise.
#[verifier::external_body]
pub(crate) fn parse_json(text: &[u8]) -> (outcome: Result<Value, serde_json::Error>)
    ensures
        outcome matches Ok(value) ==> json_parsed(text@) == Some(value),
        outcome is Err ==> json_parsed(text@) is None,
{
    serde_json::from_slice::<Value>(text)
}

/// `Value::get` with a string index. Trusted: the member under that key where
/// the value is an object that has it, `None` otherwise.
#[verifier::external_body]
pub(crate) fn member<'a>(value: &'a Value, key: &str) -> (found: Option<&'a Value>)
    ensures
        found is Some == json_members(*value).contains_key(key@),
        found matches Some(m) ==> json_members(*value)[key@] == *m,
{
    value.get(key)
}

/// `Value::as_u64`. Trusted: the number that the value holds where it is an
/// integer from 0 to `u64::MAX`, `None` for every other value, and the same
/// for the same value.
pub assume_specification[ serde_json::Value::as_u64 ](value: &serde_json::Value) -> (n: Option<u64>)
    ensures
        n == json_uint(*value),
;

/// `Value::as_str`. Trusted: the text that the value holds where it is a
/// string, `None` for every other value, and the same for the same value.
pub assume_specification<'a>[ serde_json::Value::as_str ](value: &'a serde_json::Value) -> (text:
    Option<&'a str>)
    ensures
        text is Some == (json_text(*value) is Some),
        text matches Some(t) ==> json_text(*value) == Some(t@),
;

/// `Value::clone`. Trusted: the copy equals the value that was cloned.
pub assume_specification[ <serde_json::Value as Clone>::clone ](value: &serde_json::Value) -> (copy:
    serde_json::Value)
    ensures
        copy == *value,
;

} // verus!
