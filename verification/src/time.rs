//! The wall clock, as a UNIX timestamp in seconds.

use vstd::prelude::*;

verus! {

/// The largest timestamp that chrono represents (the last second of year
/// 262142).
pub const MAX_TIMESTAMP: i64 = 8210266876799;

/// chrono's `Utc::now().timestamp()`. `Utc::now` panics for a clock before
/// the UNIX epoch or beyond chrono's range, so a returned value lies within
/// `0..=MAX_TIMESTAMP`; which value comes back is the clock's.
#[verifier::external_body]
pub(crate) fn utc_now_timestamp() -> (t: i64)
    ensures
        0 <= t <= MAX_TIMESTAMP,
{
    chrono::Utc::now().timestamp()
}

} // verus!
