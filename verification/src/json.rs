//! Field extraction from the raw JSON argument payloads that the backend
//! attaches to its structured invocations.
//!
//! Parsing arbitrary JSON is the work of `serde_json`; what a given payload
//! decodes to is therefore only named here, not restated: each extraction
//! result is a fixed function of the payload text and the key alone, and the
//! decoders' own contracts speak of these names exactly.

use vstd::prelude::*;

verus! {

/// The string value found under `key` at the top level of the JSON text
/// `raw`, if `raw` parses as an object holding a string there.
pub uninterp spec fn json_string_field(raw: Seq<char>, key: Seq<char>) -> Option<Seq<char>>;

/// The unsigned integer value found under `key` at the top level of the
/// JSON text `raw`, if `raw` parses as an object holding one there.
pub uninterp spec fn json_u64_field(raw: Seq<char>, key: Seq<char>) -> Option<u64>;

/// The array of strings found under `key` at the top level of the JSON text
/// `raw`, if `raw` parses as an object holding an array of only strings
/// there.
pub uninterp spec fn json_string_array_field(raw: Seq<char>, key: Seq<char>) -> Option<
    Seq<Seq<char>>,
>;

/// Relies on `serde_json::from_str` and `Value::{get, as_str}`: parses
/// `raw` and hands out the string under `key`, if there is one.  The result
/// depends on the two texts alone.
#[verifier::external_body]
pub fn get_string_field(raw: &str, key: &str) -> (r: Option<String>)
    ensures
        match r {
            Some(s) => json_string_field(raw@, key@) == Some(s@),
            None => json_string_field(raw@, key@) is None,
        },
{
    match serde_json::from_str::<serde_json::Value>(raw) {
        Ok(v) => v.get(key).and_then(|f| f.as_str()).map(|s| s.to_string()),
        Err(_) => None,
    }
}

/// Relies on `serde_json::from_str` and `Value::{get, as_u64}`: parses
/// `raw` and hands out the unsigned integer under `key`, if there is one.
/// The result depends on the two texts alone.
#[verifier::external_body]
pub fn get_u64_field(raw: &str, key: &str) -> (r: Option<u64>)
    ensures
        r == json_u64_field(raw@, key@),
{
    match serde_json::from_str::<serde_json::Value>(raw) {
        Ok(v) => v.get(key).and_then(|f| f.as_u64()),
        Err(_) => None,
    }
}

/// Relies on `serde_json::from_str` and `Value::{get, as_array, as_str}`:
/// parses `raw` and hands out the array under `key`, provided every element
/// is a string.  The result depends on the two texts alone.
#[verifier::external_body]
pub fn get_string_array_field(raw: &str, key: &str) -> (r: Option<Vec<String>>)
    ensures
        match r {
            Some(items) => json_string_array_field(raw@, key@) == Some(items.deep_view()),
            None => json_string_array_field(raw@, key@) is None,
        },
{
    match serde_json::from_str::<serde_json::Value>(raw) {
        Ok(v) => v.get(key).and_then(|f| f.as_array()).and_then(
            |items| items.iter().map(|x| x.as_str().map(|s| s.to_string())).collect::<
                Option<Vec<String>>,
            >(),
        ),
        Err(_) => None,
    }
}

} // verus!
