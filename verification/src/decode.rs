//! Shared helpers for reading decoded JSON values field by field.
//!
//! The values themselves are opaque (they come from the outside JSON
//! crate); everything these helpers decide about the plain values they
//! extract — defaults, which key variants are accepted, list strictness —
//! is ordinary verified code.

use vstd::prelude::*;
use crate::jsonvalue::{value_get, value_as_string, value_is_null, value_as_array};

verus! {

/// The string at `key`, if present and a string.
pub(crate) fn field_string(v: &serde_json::Value, key: &str) -> (r: Option<String>) {
    match value_get(v, key) {
        Some(inner) => value_as_string(inner),
        None => None,
    }
}

/// The string at `key`, or empty when the key is absent.
pub(crate) fn field_string_or_empty(v: &serde_json::Value, key: &str) -> (r: Option<String>) {
    match value_get(v, key) {
        Some(inner) => value_as_string(inner),
        None => Some(String::new()),
    }
}

/// Whether the field decodes as `Option<String>`: absent and null give
/// `None`, a string gives `Some`, anything else refuses.
pub(crate) fn field_opt_string(v: &serde_json::Value, key: &str) -> (r: Option<Option<String>>) {
    match value_get(v, key) {
        None => Some(None),
        Some(inner) => {
            if value_is_null(inner) {
                Some(None)
            } else {
                match value_as_string(inner) {
                    Some(s) => Some(Some(s)),
                    None => None,
                }
            }
        },
    }
}

/// The string list at `key`: absent gives the empty list; a present value
/// must be an array of strings.
pub(crate) fn field_string_list(v: &serde_json::Value, key: &str) -> (r: Option<Vec<String>>) {
    match value_get(v, key) {
        None => Some(Vec::new()),
        Some(inner) => decode_string_list(inner),
    }
}

/// Decodes an array of strings; any non-string element refuses the whole
/// list.
pub(crate) fn decode_string_list(v: &serde_json::Value) -> (r: Option<Vec<String>>) {
    let arr = match value_as_array(v) {
        Some(a) => a,
        None => {
            return None;
        },
    };
    let n = arr.len();
    let mut out: Vec<String> = Vec::new();
    let mut i: usize = 0;
    while i < n
        invariant
            0 <= i <= n == arr@.len(),
        decreases n - i,
    {
        match value_as_string(&arr[i]) {
            Some(s) => out.push(s),
            None => {
                return None;
            },
        }
        i = i + 1;
    }
    Some(out)
}

} // verus!
