//! What the surroundings supply: the current time and fresh random
//! identifiers. Nothing is known of either beyond their shape.

use vstd::prelude::*;

verus! {

/// Relies on chrono::Utc::now and DateTime::timestamp: the current time as
/// whole seconds since the Unix epoch.
#[verifier::external_body]
pub(crate) fn now_secs() -> (r: i64) {
    chrono::Utc::now().timestamp()
}

/// Relies on uuid::Uuid::new_v4 and its Display impl: a random version-4
/// UUID written in the 36-character hyphenated form.
#[verifier::external_body]
pub(crate) fn fresh_token() -> (r: String)
    ensures
        r@.len() == 36,
{
    uuid::Uuid::new_v4().to_string()
}

} // verus!
