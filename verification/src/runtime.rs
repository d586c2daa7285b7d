//! Bridges to the process environment: fresh identifiers and the clock.

use vstd::prelude::*;
use crate::types::MAX_TIMESTAMP;

verus! {

/// Relies on uuid::Uuid::new_v4: draws a fresh random (version 4) UUID and
/// hands back its 128-bit value. Nothing is promised of the result; it is
/// random, so two calls may differ.
#[verifier::external_body]
pub(crate) fn fresh_uuid_128() -> u128 {
    uuid::Uuid::new_v4().as_u128()
}

/// Relies on chrono::Utc::now: the current UTC wall-clock instant in whole
/// seconds since the Unix epoch. Nothing is promised of the result; it
/// depends on the machine's clock.
#[verifier::external_body]
pub(crate) fn current_timestamp() -> i64 {
    chrono::Utc::now().timestamp()
}

/// The current UTC time, clamped into the range the broker's retry
/// arithmetic accepts.
pub fn now_clamped() -> (t: i64)
    ensures
        0 <= t <= MAX_TIMESTAMP,
{
    let t = current_timestamp();
    if t < 0 {
        0
    } else if t > MAX_TIMESTAMP {
        MAX_TIMESTAMP
    } else {
        t
    }
}

} // verus!
