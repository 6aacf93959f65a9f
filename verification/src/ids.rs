//! Fresh identifiers.

use vstd::prelude::*;

verus! {

/// `uuid::Uuid::new_v4` and the `to_string` of what it gives: a random
/// identifier as text. Nothing is claimed of the text, which is different
/// at every call; where the system's source of randomness fails, `uuid`
/// panics.
#[verifier::external_body]
pub(crate) fn new_id() -> (id: String) {
    uuid::Uuid::new_v4().to_string()
}

} // verus!
