//! Reading JSON: the calls into `serde_json`.
//!
//! A payload is parsed by `serde_json` into its `Value`, and what the crate
//! reads from a value it reads through the accessors of that type. A value is
//! opaque here. What the accessors return is named by uninterpreted
//! functions, and the decoding in [`crate::payload`] is stated over those.

use vstd::prelude::*;

verus! {

/// A JSON document in memory.
#[verifier::external_type_specification]
#[verifier::external_body]
pub struct ExValue(serde_json::Value);

/// The reason why a text is no JSON document.
#[verifier::external_type_specification]
#[verifier::external_body]
pub struct ExJsonError(serde_json::Error);

/// The document that `serde_json::from_str` reads from `text`; `None` where
/// it reports an error.
pub uninterp spec fn json_document(text: Seq<char>) -> Option<serde_json::Value>;

/// What indexing `value` with the key `key` gives: the member of that name
/// where `value` is an object that has one, and the null value otherwise.
pub uninterp spec fn json_member(value: serde_json::Value, key: Seq<char>) -> serde_json::Value;

/// The elements of `value` where it is an array, as `Value::as_array` gives them.
pub uninterp spec fn json_items(value: serde_json::Value) -> Option<Seq<serde_json::Value>>;

/// The text of `value` where it is a string, as `Value::as_str` gives it.
pub uninterp spec fn json_text(value: serde_json::Value) -> Option<Seq<char>>;

/// The number of `value` where it is an integer that fits 64 bits with a
/// sign, as `Value::as_i64` gives it.
pub uninterp spec fn json_integer(value: serde_json::Value) -> Option<i64>;

/// Calls `serde_json::from_str` for a `Value`. Trusted: the outcome is the
/// one named by [`json_document`].
#[verifier::external_body]
pub(crate) fn parse_document(text: &str) -> (r: Result<serde_json::Value, serde_json::Error>)
    ensures
        match r {
            Ok(document) => json_document(text@) == Some(document),
            Err(_) => json_document(text@) is None,
        },
{
    serde_json::from_str::<serde_json::Value>(text)
}

/// Indexes `value` with `key`, which never fails: a value without such a
/// member gives the null value. Trusted: the result is the one named by
/// [`json_member`].
#[verifier::external_body]
pub(crate) fn member<'a>(value: &'a serde_json::Value, key: &str) -> (r: &'a serde_json::Value)
    ensures
        *r == json_member(*value, key@),
{
    &value[key]
}

/// Calls `Value::as_array`. Trusted: the result is the one named by
/// [`json_items`].
#[verifier::external_body]
pub(crate) fn items<'a>(value: &'a serde_json::Value) -> (r: Option<&'a Vec<serde_json::Value>>)
    ensures
        match r {
            Some(elements) => json_items(*value) == Some(elements@),
            None => json_items(*value) is None,
        },
{
    value.as_array()
}

/// Calls `Value::as_str`. Trusted: the result is the one named by
/// [`json_text`].
#[verifier::external_body]
pub(crate) fn text<'a>(value: &'a serde_json::Value) -> (r: Option<&'a str>)
    ensures
        match r {
            Some(s) => json_text(*value) == Some(s@),
            None => json_text(*value) is None,
        },
{
    value.as_str()
}

/// Calls `Value::as_i64`. Trusted: the result is the one named by
/// [`json_integer`].
#[verifier::external_body]
pub(crate) fn integer(value: &serde_json::Value) -> (r: Option<i64>)
    ensures
        r == json_integer(*value),
{
    value.as_i64()
}

} // verus!
