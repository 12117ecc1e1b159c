//! JSON values that the library carries without reading them.
use vstd::prelude::*;

verus! {

/// `serde_json::Value`: a JSON document (a tool's input or output). The
/// library stores such values and hands them on; it never looks inside.
#[verifier::external_type_specification]
#[verifier::external_body]
pub struct ExJsonValue(serde_json::Value);

/// `Clone::clone` of `serde_json::Value`, which serde_json derives: a deep
/// copy of the document. Nothing is stated of the copy; the library only
/// carries such values on.
pub assume_specification[ <serde_json::Value as Clone>::clone ](v: &serde_json::Value) -> (r: serde_json::Value);

} // verus!
