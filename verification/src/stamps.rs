//! Identifiers and time stamps, both taken from outside the library.

use vstd::prelude::*;

verus! {

/// A new identifier (`uuid::Uuid::new_v4`, written with `to_string`): it is
/// drawn at random, so nothing is promised of it.
#[verifier::external_body]
pub(crate) fn fresh_id() -> String {
    uuid::Uuid::new_v4().to_string()
}

/// The present time in UTC (`chrono::Utc::now`, written with `to_rfc3339`):
/// it depends on the clock, so nothing is promised of it. The call does not
/// return when the clock stands before 1970.
#[verifier::external_body]
pub(crate) fn now_rfc3339() -> String {
    chrono::Utc::now().to_rfc3339()
}

} // verus!
