//! The two values the application takes from its surroundings rather than
//! from its inputs: the current time and fresh record identifiers.

use vstd::prelude::*;

verus! {

/// The current UTC time as RFC 3339 text (`chrono::Utc::now().to_rfc3339()`).
/// The value depends on the clock; nothing is stated of it.
#[verifier::external_body]
pub(crate) fn now_rfc3339() -> (r: String) {
    chrono::Utc::now().to_rfc3339()
}

/// A fresh random identifier (`uuid::Uuid::new_v4().to_string()`): the
/// hyphenated form of a version-4 UUID, 36 characters long. Which identifier
/// comes out depends on the random source; only its length is stated.
#[verifier::external_body]
pub(crate) fn new_identifier() -> (r: String)
    ensures
        r@.len() == 36,
{
    uuid::Uuid::new_v4().to_string()
}

} // verus!
