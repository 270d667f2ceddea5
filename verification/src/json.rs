//! The types of `serde_json` that an envelope carries.

use vstd::prelude::*;

verus! {

/// `serde_json::Number`, a JSON number. The envelope carries it as the `code`
/// of an error and never looks inside.
#[verifier::external_type_specification]
#[verifier::external_body]
pub struct ExNumber(serde_json::Number);

/// `Clone::clone` of `serde_json::Number`: the copy is the number itself.
pub assume_specification[ <serde_json::Number as Clone>::clone ](number: &serde_json::Number) -> (r:
    serde_json::Number)
    ensures
        r == *number,
;

} // verus!
