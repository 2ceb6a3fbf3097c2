//! Types of other crates that values of this library carry.

use vstd::prelude::*;

verus! {

/// `std::io::Error`: why a file could not be opened or read. Carried, never looked into.
#[verifier::external_type_specification]
#[verifier::external_body]
pub struct ExIoError(std::io::Error);

/// `serde_json::Error`: why a text is not the JSON that was expected. Carried, never looked into.
#[verifier::external_type_specification]
#[verifier::external_body]
pub struct ExJsonError(serde_json::Error);

} // verus!
