//! Opaque JSON payloads, carried through serde_json.
//!
//! The payload of an item is structured data that this crate never takes
//! apart itself: parsing, field lookup and rendering go through serde_json
//! behind the trusted items below, and everything the surrounding logic
//! decides is decided on the plain values they hand back.

use vstd::prelude::*;

verus! {

#[verifier::external_type_specification]
#[verifier::external_body]
pub struct ExValue(serde_json::Value);

/// Whether `s` parses as JSON. Names the success of `serde_json::from_str`,
/// which depends on the text alone.
pub uninterp spec fn json_parse_ok(s: Seq<char>) -> bool;

/// Relies on serde_json::from_str: parses `s` as one JSON value; the error
/// carries the parser's own description.
#[verifier::external_body]
pub(crate) fn parse_json(s: &str) -> (r: Result<serde_json::Value, String>)
    ensures
        (r is Ok) <==> json_parse_ok(s@),
{
    match serde_json::from_str::<serde_json::Value>(s) {
        Ok(v) => Ok(v),
        Err(e) => Err(format!("{}", e)),
    }
}

/// Relies on serde_json::Value's Clone: a deep copy, equal to the original.
#[verifier::external_body]
pub(crate) fn clone_value(v: &serde_json::Value) -> (r: serde_json::Value)
    ensures
        r == *v,
{
    v.clone()
}

/// What looking up a string field in a JSON value found.
#[derive(Debug)]
pub enum FieldProbe {
    /// The value is not a JSON object.
    NotAnObject,
    /// The object holds nothing under the key.
    Missing,
    /// The key is there, but its value is not a string.
    NotAString,
    /// The key is there, with this string as its value.
    Found(String),
}

/// Relies on serde_json's Map::get and the Value variants: reports whether
/// `v` is an object holding a string under `key`, and hands that string out.
#[verifier::external_body]
pub(crate) fn string_field(v: &serde_json::Value, key: &str) -> FieldProbe {
    match v {
        serde_json::Value::Object(map) => match map.get(key) {
            Some(serde_json::Value::String(s)) => FieldProbe::Found(s.clone()),
            Some(_) => FieldProbe::NotAString,
            None => FieldProbe::Missing,
        },
        _ => FieldProbe::NotAnObject,
    }
}

/// Relies on the Value::Array variant: hands back the elements when `v` is a
/// JSON array, and `v` itself unchanged otherwise.
#[verifier::external_body]
pub(crate) fn array_elements(v: serde_json::Value) -> Result<Vec<serde_json::Value>, serde_json::Value> {
    match v {
        serde_json::Value::Array(items) => Ok(items),
        other => Err(other),
    }
}

/// Relies on the Value::Array constructor: the payloads as one JSON array.
#[verifier::external_body]
pub(crate) fn array_value(items: Vec<serde_json::Value>) -> serde_json::Value {
    serde_json::Value::Array(items)
}

/// Relies on serde_json::to_string_pretty: the pretty-printed rendering of
/// `v`. `None` when serde refuses, which it does not for its own Value type.
#[verifier::external_body]
pub(crate) fn render_pretty(v: &serde_json::Value) -> Option<String> {
    match serde_json::to_string_pretty(v) {
        Ok(s) => Some(s),
        Err(_) => None,
    }
}

} // verus!
