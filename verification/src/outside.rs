//! Declarations of the two outside value-tree types that appear in the
//! signatures of this crate's trusted bridge functions.  Verus treats both
//! as opaque: nothing is assumed about what a value of either holds.

use vstd::prelude::*;

verus! {

#[verifier::external_type_specification]
#[verifier::external_body]
pub struct ExTomlValue(toml::Value);

#[verifier::external_type_specification]
#[verifier::external_body]
pub struct ExJsonValue(serde_json::Value);

} // verus!
