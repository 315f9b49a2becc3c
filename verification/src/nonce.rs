//! Per-request nonce and timestamp sources. Their values depend on chance or
//! on the clock, so nothing beyond shape is promised of them; the signing
//! functions take them as arguments and are verified for every value.

use vstd::prelude::*;

verus! {

/// Relies on rand::random::<i32>: a random 32-bit integer from the
/// thread-local generator. Nothing is promised of the value.
#[verifier::external_body]
pub(crate) fn random_i32() -> i32 {
    rand::random::<i32>()
}

/// Relies on uuid::Uuid::new_v4 and its Display impl: a random version-4
/// UUID rendered in the hyphenated lowercase form, which is always 36
/// characters long. Nothing else is promised of the value.
#[verifier::external_body]
pub(crate) fn uuid_salt() -> (r: String)
    ensures
        r@.len() == 36,
{
    uuid::Uuid::new_v4().to_string()
}

/// Relies on chrono::Utc::now and DateTime::timestamp: the current time as
/// whole seconds since the Unix epoch. Nothing is promised of the value.
#[verifier::external_body]
pub(crate) fn unix_timestamp() -> i64 {
    chrono::Utc::now().timestamp()
}

} // verus!
