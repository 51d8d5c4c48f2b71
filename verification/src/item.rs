//! One exported item: its id and its opaque payload.

use vstd::prelude::*;
use crate::errors::FetchError;
use crate::json::FieldProbe;
use crate::json::string_field;

verus! {

/// One item of the export: the id it was fetched under, and the payload the
/// provider returned for it. Immutable once constructed; ownership moves
/// stage to stage through the pipeline.
#[derive(Debug, PartialEq, Eq)]
pub struct Item {
    pub id: String,
    pub payload: serde_json::Value,
}

/// What the id lookup in a payload yields: the id string, or the exact
/// message of the error reported instead.
pub open spec fn id_probe_result(probe: FieldProbe) -> Result<Seq<char>, Seq<char>> {
    match probe {
        FieldProbe::Found(s) => Ok(s@),
        FieldProbe::NotAString => Err("item's id was not a string"@),
        FieldProbe::Missing => Err("item did not have an id"@),
        FieldProbe::NotAnObject => Err("item not an object"@),
    }
}

/// Turns what a field lookup found into the item's id, or into the exact
/// error owed for that finding.
pub fn id_from_probe(probe: FieldProbe) -> (r: Result<String, FetchError>)
    ensures
        match id_probe_result(probe) {
            Ok(id) => r matches Ok(s) && s@ == id,
            Err(m) => r matches Err(e) && e matches FetchError::Provider { message } && message@
                == m,
        },
{
    match probe {
        FieldProbe::Found(s) => Ok(s),
        FieldProbe::NotAString => Err(
            FetchError::provider(String::from_str("item's id was not a string")),
        ),
        FieldProbe::Missing => Err(
            FetchError::provider(String::from_str("item did not have an id")),
        ),
        FieldProbe::NotAnObject => Err(FetchError::provider(String::from_str("item not an object"))),
    }
}

/// Reads the id a payload carries: the string under its id key. The lookup
/// itself is serde_json's; `id_from_probe` pins what each finding becomes.
pub fn id_of_item(payload: &serde_json::Value) -> (r: Result<String, FetchError>)
    ensures
        r matches Err(e) ==> e is Provider,
{
    id_from_probe(string_field(payload, "id"))
}

} // verus!
