use vstd::prelude::*;

verus! {

/// A JSON document as `serde_json` holds it. The library carries such documents
/// (connector metadata, the error details Iugu attaches to an invoice) from one
/// structure to another and never looks inside them.
#[verifier::external_type_specification]
#[verifier::external_body]
pub struct ExJsonValue(serde_json::Value);

} // verus!
