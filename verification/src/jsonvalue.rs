//! The trusted surface over the outside JSON crate: parsing text into its
//! dynamic value type and reading that opaque value field by field.
//!
//! Every decoded field leaves this module as a plain value (`String`,
//! `u64`, `bool`, or a borrowed list of values); all decisions about those
//! plain values are made by verified code elsewhere.

use vstd::prelude::*;

verus! {

/// Whether the outside JSON parser accepts the text as one JSON value.
pub uninterp spec fn json_valid(s: Seq<char>) -> bool;

/// Declares the outside JSON crate's dynamic value type so that it can
/// stand in signatures; values of it are opaque here.
#[verifier::external_type_specification]
#[verifier::external_body]
pub struct ExValue(serde_json::Value);

/// Relies on `serde_json::from_str::<Value>`: it succeeds exactly on valid
/// JSON text, a property of the text alone.
#[verifier::external_body]
pub(crate) fn parse_json_value(s: &str) -> (r: Option<serde_json::Value>)
    ensures
        r is Some <==> json_valid(s@),
{
    serde_json::from_str::<serde_json::Value>(s).ok()
}

/// Whether the text is one valid JSON value.
pub(crate) fn json_ok(s: &str) -> (r: bool)
    ensures
        r == json_valid(s@),
{
    parse_json_value(s).is_some()
}

/// Relies on `serde_json::Value::get`: the value of this key if the value
/// is an object holding it.
#[verifier::external_body]
pub(crate) fn value_get<'a>(v: &'a serde_json::Value, key: &str) -> (r: Option<&'a serde_json::Value>) {
    v.get(key)
}

/// Relies on `serde_json::Value::as_str`: the text if the value is a JSON
/// string.
#[verifier::external_body]
pub(crate) fn value_as_string(v: &serde_json::Value) -> (r: Option<String>) {
    match v.as_str() {
        Some(s) => Some(s.to_string()),
        None => None,
    }
}

/// Relies on `serde_json::Value::as_u64`: the number if the value is an
/// unsigned integer.
#[verifier::external_body]
pub(crate) fn value_as_u64(v: &serde_json::Value) -> (r: Option<u64>) {
    v.as_u64()
}

/// Relies on `serde_json::Value::as_array`: the elements if the value is a
/// JSON array.
#[verifier::external_body]
pub(crate) fn value_as_array<'a>(v: &'a serde_json::Value) -> (r: Option<&'a Vec<serde_json::Value>>) {
    v.as_array()
}

/// Relies on `serde_json::Value::is_null`: whether the value is JSON null.
#[verifier::external_body]
pub(crate) fn value_is_null(v: &serde_json::Value) -> (r: bool) {
    v.is_null()
}

} // verus!
