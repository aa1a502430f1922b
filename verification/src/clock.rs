//! The wall clock.

use vstd::prelude::*;

verus! {

/// `chrono::Utc::now`, read in milliseconds since the Unix epoch by
/// `chrono::DateTime::timestamp_millis`. The call does not return where the system clock stands
/// before the epoch, so what it returns is never negative. Which number comes back depends on
/// when the call is made: two calls may differ, and nothing more is claimed.
#[verifier::external_body]
pub(crate) fn now_millis() -> (r: i64)
    ensures
        0 <= r,
{
    chrono::Utc::now().timestamp_millis()
}

} // verus!
