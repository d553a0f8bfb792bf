//! Values the services take from the environment: fresh record
//! identifiers and the current time.

use vstd::prelude::*;

verus! {

/// Relies on uuid::Uuid::new_v4 and its hyphenated rendering: a fresh
/// random version-4 UUID, always 36 characters. Nothing relates two calls.
#[verifier::external_body]
pub(crate) fn new_record_id() -> (r: String)
    ensures
        r@.len() == 36,
{
    uuid::Uuid::new_v4().to_string()
}

/// Relies on chrono::Utc::now: the current UTC instant in milliseconds
/// since the epoch. Nothing is promised of the value.
#[verifier::external_body]
pub(crate) fn now_millis() -> (r: i64) {
    chrono::Utc::now().timestamp_millis()
}

} // verus!
