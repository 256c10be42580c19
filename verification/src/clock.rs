//! The two clocks that the library reads.
use vstd::prelude::*;

verus! {

/// Calls `jwt_simple::prelude::Clock::now_since_epoch` and `as_ticks`: the
/// clock that tokens are stamped and checked with, in fixed-point seconds
/// of 2^32 ticks. Nothing is stated: it is the time.
#[verifier::external_body]
pub(crate) fn unix_now_ticks() -> (r: u64) {
    jwt_simple::prelude::Clock::now_since_epoch().as_ticks()
}

/// Calls `chrono::Utc::now` and `timestamp_micros`: the time of day that
/// rows are stamped with, in microseconds since the epoch. Nothing is
/// stated: it is the time.
#[verifier::external_body]
pub(crate) fn utc_now_micros() -> (r: i64) {
    chrono::Utc::now().timestamp_micros()
}

} // verus!
