//! JSON values carried through action results and evidence.
use vstd::prelude::*;

verus! {

/// A JSON value, carried through without being inspected.
#[verifier::external_type_specification]
#[verifier::external_body]
pub struct ExJsonValue(serde_json::Value);

/// Specifies `serde_json::Value::clone`: the derived clone gives an equal value.
pub assume_specification[ <serde_json::Value as Clone>::clone ](v: &serde_json::Value) -> (r:
    serde_json::Value)
    ensures
        r == *v,
;

/// Wraps `serde_json::Value::Object` over `serde_json::Map::new`: the empty
/// JSON object. Nothing more is stated of the opaque value.
#[verifier::external_body]
pub fn json_empty_object() -> serde_json::Value {
    serde_json::Value::Object(serde_json::Map::new())
}

/// Wraps `serde_json::Value::Object`: a JSON object with the given string and
/// number members. Nothing more is stated of the opaque value.
#[verifier::external_body]
pub fn json_object(strings: Vec<(String, String)>, numbers: Vec<(String, u64)>) -> serde_json::Value {
    serde_json::Value::Object(
        strings.into_iter().map(|(k, v)| (k, serde_json::Value::from(v))).chain(
            numbers.into_iter().map(|(k, n)| (k, serde_json::Value::from(n))),
        ).collect(),
    )
}

} // verus!
