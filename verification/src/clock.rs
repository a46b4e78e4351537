//! Wall-clock time and the fixed-duration expiry computation.
//!
//! Timestamps are whole seconds since the Unix epoch, UTC.  A session lives
//! for exactly two hours from the instant of issuance.

use vstd::prelude::*;

verus! {

/// How long an issued session stays live, in seconds: two hours.
pub const SESSION_DURATION_SECS: i64 = 7200;

/// Relies on chrono's `Utc::now` and `DateTime::timestamp`: the machine's
/// current UTC wall-clock time as whole seconds since the Unix epoch.  The
/// result depends on the clock, so nothing is promised of its value.
#[verifier::external_body]
pub(crate) fn utc_now_seconds() -> i64 {
    chrono::Utc::now().timestamp()
}

/// The expiry timestamp of a session issued at `now`: two hours later.
pub fn expiry_from(now: i64) -> (r: i64)
    requires
        now + SESSION_DURATION_SECS <= i64::MAX,
    ensures
        r == now + SESSION_DURATION_SECS,
{
    now + SESSION_DURATION_SECS
}

} // verus!
