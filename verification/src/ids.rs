//! Generation of random identifiers and nonces.

use vstd::prelude::*;
use crate::text::is_hex_lower;

verus! {

/// Relies on `uuid::Uuid::new_v4` and its default hyphenated text form: 36
/// characters, lowercase hexadecimal digits and hyphens. The value is random,
/// so only its shape is promised.
#[verifier::external_body]
pub(crate) fn new_uuid_hyphenated() -> (r: String)
    ensures
        r@.len() == 36,
        forall|i: int| 0 <= i < r@.len() ==> (is_hex_lower(#[trigger] r@[i]) || r@[i] == '-'),
{
    uuid::Uuid::new_v4().to_string()
}

/// Relies on `uuid::Uuid::new_v4` and its simple text form: 32 lowercase
/// hexadecimal digits, no hyphens. The value is random, so only its shape is
/// promised.
#[verifier::external_body]
pub(crate) fn new_uuid_simple() -> (r: String)
    ensures
        r@.len() == 32,
        forall|i: int| 0 <= i < r@.len() ==> is_hex_lower(#[trigger] r@[i]),
{
    uuid::Uuid::new_v4().simple().to_string()
}

} // verus!
