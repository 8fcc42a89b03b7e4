//! Wrappers around the outside calls the store relies on: a freshly drawn
//! random identifier and the current wall-clock time. Their contracts are
//! taken on trust; everything proved about the store holds for every value
//! these calls can return.

use vstd::prelude::*;

verus! {

/// Relies on uuid::Uuid::new_v4 and its Display form: a version-4 uuid
/// rendered in the hyphenated lowercase format, which is always 36 ASCII
/// characters. The value is random, so nothing beyond its length is
/// promised; callers must check it against the store themselves.
#[verifier::external_body]
pub(crate) fn fresh_uuid() -> (r: String)
    ensures
        r@.len() == 36,
{
    uuid::Uuid::new_v4().to_string()
}

/// Relies on chrono::Utc::now and DateTime::timestamp_millis: the current
/// wall-clock time as milliseconds since the Unix epoch. The clock is not
/// monotonic, so nothing is promised of the value; the store's operations
/// are verified for every time they may be handed.
#[verifier::external_body]
pub(crate) fn now_millis() -> (r: i64)
{
    chrono::Utc::now().timestamp_millis()
}

} // verus!
