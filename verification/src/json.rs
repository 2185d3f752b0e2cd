//! JSON values as they are carried from an upload to the store.

use vstd::prelude::*;

verus! {

#[verifier::external_type_specification]
#[verifier::external_body]
pub struct ExValue(serde_json::Value);

/// The canonical text of a JSON value: compact, with the members of an object in
/// the order of their keys, and with a negative zero written as zero.
pub uninterp spec fn json_text(value: serde_json::Value) -> Seq<char>;

/// `==` of `serde_json::Value`: whether two values have one canonical text.
#[verifier::external_body]
pub(crate) fn json_eq(a: &serde_json::Value, b: &serde_json::Value) -> (r: bool)
    ensures
        r == (json_text(*a) == json_text(*b)),
{
    a == b
}

/// `Value::clone`: a value with the same canonical text.
#[verifier::external_body]
pub(crate) fn json_clone(value: &serde_json::Value) -> (r: serde_json::Value)
    ensures
        json_text(r) == json_text(*value),
{
    value.clone()
}

/// `Value::Array` of no values: the canonical text of the empty array is `[]`.
#[verifier::external_body]
pub(crate) fn json_empty_array() -> (r: serde_json::Value)
    ensures
        json_text(r) == "[]"@,
{
    serde_json::Value::Array(Vec::new())
}

} // verus!
