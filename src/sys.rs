//! The system clock and the random source.
use vstd::prelude::*;
use std::time::SystemTime;

verus! {

#[verifier::external_type_specification]
#[verifier::external_body]
pub struct ExSystemTime(SystemTime);

/// Relies on `std::time::SystemTime::now`: a reading of the system clock, of
/// which nothing is promised.
pub assume_specification[ SystemTime::now ]() -> SystemTime;

/// Relies on `SystemTime::duration_since` with `UNIX_EPOCH`: an error when
/// `t` lies before the epoch, else the time since it, here in whole seconds.
#[verifier::external_body]
fn secs_since_epoch(t: &SystemTime) -> (r: Option<u64>) {
    t.duration_since(std::time::UNIX_EPOCH).ok().map(|d| d.as_secs())
}

/// Whole seconds since the Unix epoch, or `None` when the clock reads before
/// the epoch or beyond what an `i64` holds.
pub(crate) fn unix_now() -> (r: Option<i64>)
    ensures
        r matches Some(t) ==> 0 <= t,
{
    let now = SystemTime::now();
    match secs_since_epoch(&now) {
        Some(s) => if s <= i64::MAX as u64 {
            Some(s as i64)
        } else {
            None
        },
        None => None,
    }
}

/// Relies on `rand::random_range`: a value drawn from the thread-local generator
/// in `0..bound` (it panics on an empty range, hence `bound > 0`).
#[verifier::external_body]
pub(crate) fn random_below(bound: u64) -> (r: u64)
    requires
        bound > 0,
    ensures
        r < bound,
{
    rand::random_range(0..bound)
}

} // verus!
