//! Identifiers for records that are created locally.

use vstd::prelude::*;

verus! {

/// `uuid::Uuid::new_v4` draws a random version-4 UUID and `to_string` prints
/// it in the hyphenated lower-case form, which is 36 characters long. The
/// value is random, so nothing else is claimed of it.
#[verifier::external_body]
pub(crate) fn random_uuid() -> (id: String)
    ensures
        id@.len() == 36,
{
    uuid::Uuid::new_v4().to_string()
}

} // verus!
