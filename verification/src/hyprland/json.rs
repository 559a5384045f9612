//! Reading the window manager's JSON replies with `serde_json`.
//!
//! Verus does not look inside a JSON value. Each function here makes one
//! call into `serde_json`, and its result is given a name so that the
//! functions built on top can say exactly what they return.

use vstd::prelude::*;

verus! {

#[verifier::external_type_specification]
#[verifier::external_body]
pub struct ExJsonValue(serde_json::Value);

#[verifier::external_type_specification]
#[verifier::external_body]
pub struct ExJsonError(serde_json::Error);

/// The value that `text` parses to as one JSON document, if it does.
pub uninterp spec fn json_document(text: Seq<u8>) -> Option<serde_json::Value>;

/// What indexing `value` by the string `key` gives.
pub uninterp spec fn json_member(value: serde_json::Value, key: Seq<char>) -> serde_json::Value;

/// The text of `value`, if it is a JSON string.
pub uninterp spec fn json_text(value: serde_json::Value) -> Option<Seq<char>>;

/// `value` as an unsigned 64-bit integer, if it is one.
pub uninterp spec fn json_unsigned(value: serde_json::Value) -> Option<u64>;

/// `value` as a signed 64-bit integer, if it is one.
pub uninterp spec fn json_signed(value: serde_json::Value) -> Option<i64>;

/// The elements of `value`, if it is a JSON array.
pub uninterp spec fn json_elements(value: serde_json::Value) -> Option<Seq<serde_json::Value>>;

/// Calls `serde_json::from_slice` for a `Value`. Trusted: the call succeeds
/// exactly on the texts that `json_document` has a value for, and returns
/// that value.
#[verifier::external_body]
pub(crate) fn parse_document(text: &[u8]) -> (result: Result<
    serde_json::Value,
    serde_json::Error,
>)
    ensures
        match result {
            Ok(value) => json_document(text@) == Some(value),
            Err(_) => json_document(text@) is None,
        },
{
    serde_json::from_slice::<serde_json::Value>(text)
}

/// Indexes a `Value` by a string key, which gives the null value where there
/// is no such member. Trusted: the result is what `json_member` names.
#[verifier::external_body]
pub(crate) fn member<'a>(value: &'a serde_json::Value, key: &str) -> (found: &'a serde_json::Value)
    ensures
        *found == json_member(*value, key@),
{
    &value[key]
}

/// Calls `Value::as_str` and copies the text. Trusted: the result is what
/// `json_text` names.
#[verifier::external_body]
pub(crate) fn text_of(value: &serde_json::Value) -> (text: Option<String>)
    ensures
        match text {
            Some(text) => json_text(*value) == Some(text@),
            None => json_text(*value) is None,
        },
{
    value.as_str().map(|text| text.to_string())
}

/// Calls `Value::as_u64`. Trusted: the result is what `json_unsigned` names.
#[verifier::external_body]
pub(crate) fn unsigned_of(value: &serde_json::Value) -> (number: Option<u64>)
    ensures
        number == json_unsigned(*value),
{
    value.as_u64()
}

/// Calls `Value::as_i64`. Trusted: the result is what `json_signed` names.
#[verifier::external_body]
pub(crate) fn signed_of(value: &serde_json::Value) -> (number: Option<i64>)
    ensures
        number == json_signed(*value),
{
    value.as_i64()
}

/// Calls `Value::as_array`. Trusted: the result holds what `json_elements`
/// names.
#[verifier::external_body]
pub(crate) fn elements_of<'a>(value: &'a serde_json::Value) -> (elements: Option<
    &'a Vec<serde_json::Value>,
>)
    ensures
        match elements {
            Some(items) => json_elements(*value) == Some(items@),
            None => json_elements(*value) is None,
        },
{
    value.as_array()
}

} // verus!
