//! Access to the system clocks.  Nothing about the values they return is
//! assumed: callers state what holds whatever the clock says.
use vstd::prelude::*;
use std::time::Duration;
use std::time::Instant;

verus! {

#[verifier::external_type_specification]
#[verifier::external_body]
pub struct ExInstant(Instant);

/// `Instant::now` reads the monotonic clock; nothing is claimed of the result.
pub assume_specification [ Instant::now ]() -> Instant;

/// `Instant` is `Copy`: its clone is the same instant.
pub assume_specification [ <Instant as Clone>::clone ](i: &Instant) -> (r: Instant)
    ensures
        r == *i,
;

/// `Instant::elapsed` measures the time since the instant; nothing is claimed of the result.
pub assume_specification [ Instant::elapsed ](i: &Instant) -> Duration;

/// `Duration::as_secs` gives the whole seconds of a duration; as `Duration` is
/// opaque here, nothing is claimed of the result.
pub assume_specification [ Duration::as_secs ](d: &Duration) -> u64;

/// `Duration::as_millis` gives the whole milliseconds of a duration; nothing is claimed of the result.
pub assume_specification [ Duration::as_millis ](d: &Duration) -> u128;

/// Whole seconds since `i`, as measured now.
pub(crate) fn secs_since(i: &Instant) -> u64 {
    let d = i.elapsed();
    d.as_secs()
}

/// Whole milliseconds since `i`, as measured now.
pub(crate) fn millis_since(i: &Instant) -> u128 {
    let d = i.elapsed();
    d.as_millis()
}

/// The current Unix time in seconds, read through `chrono::Utc::now`; nothing
/// is claimed of the value.
#[verifier::external_body]
pub(crate) fn unix_now() -> i64 {
    chrono::Utc::now().timestamp()
}

} // verus!
