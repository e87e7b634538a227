//! Fresh identifiers.

use vstd::prelude::*;

verus! {

/// Relies on uuid's `Uuid::new_v4`: a random version-4 identifier in its
/// hyphenated text form. Nothing is promised of its value.
#[verifier::external_body]
pub(crate) fn new_uuid() -> (r: String) {
    uuid::Uuid::new_v4().to_string()
}

} // verus!
