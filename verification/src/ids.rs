//! Generation of opaque identifiers for identities, sessions and records.

use vstd::prelude::*;

verus! {

/// Relies on uuid's `Uuid::new_v4` and its `Display`: a freshly drawn random
/// version-4 UUID, rendered in the 36-character hyphenated form.  The value
/// is random, so only its length is promised.
#[verifier::external_body]
pub(crate) fn fresh_id() -> (r: String)
    ensures
        r@.len() == 36,
{
    uuid::Uuid::new_v4().to_string()
}

} // verus!
