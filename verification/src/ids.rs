//! Identity keys backed by the uuid crate.

use vstd::prelude::*;

verus! {

#[verifier::external_type_specification]
#[verifier::external_body]
pub struct ExUuid(uuid::Uuid);

/// A fresh random (version 4) identifier. Relies on `uuid::Uuid::new_v4`;
/// nothing is assumed of the value.
#[verifier::external_body]
pub fn new_uuid() -> uuid::Uuid {
    uuid::Uuid::new_v4()
}

/// Relies on the uuid crate's canonical textual form: hyphenated, lower
/// case, always 36 characters.
#[verifier::external_body]
pub fn uuid_to_string(u: &uuid::Uuid) -> (r: String)
    ensures
        r@.len() == 36,
{
    u.to_string()
}

} // verus!
