use std::time::{Duration, SystemTime};

use vstd::prelude::*;

verus! {

#[verifier::external_type_specification]
#[verifier::external_body]
pub struct ExSystemTime(SystemTime);

/// Reads the system clock: `std::time::SystemTime::now`. Nothing is claimed
/// of the value, which depends on the machine and the moment.
#[verifier::external_body]
fn system_time_now() -> SystemTime {
    SystemTime::now()
}

/// The time elapsed from the Unix epoch to `t`:
/// `std::time::SystemTime::duration_since` with `UNIX_EPOCH`, its error (a
/// `t` before the epoch) turned into `None`. Nothing is claimed of the value.
#[verifier::external_body]
fn duration_since_epoch(t: &SystemTime) -> Option<Duration> {
    t.duration_since(std::time::UNIX_EPOCH).ok()
}

/// The whole seconds of `d`: `std::time::Duration::as_secs`. Nothing is
/// claimed of the value: a `Duration` is opaque here.
#[verifier::external_body]
fn duration_secs(d: &Duration) -> u64 {
    d.as_secs()
}

/// The current time in whole seconds since the Unix epoch, as a signed
/// timestamp (a count past `i64::MAX` wraps, as a cast does); `None` when the
/// system clock reads a time before the epoch.
pub fn unix_time_now() -> (now: Option<i64>) {
    let t = system_time_now();
    match duration_since_epoch(&t) {
        Some(d) => {
            let secs = duration_secs(&d);
            Some(secs as i64)
        },
        None => None,
    }
}

/// A reading of the clock, known to be one that [`unix_time_now`] can give:
/// `clock_gives(r)` holds of what the call returned.
pub open spec fn clock_gives(r: Option<i64>) -> bool {
    call_ensures(unix_time_now, (), r)
}

/// Reads the clock through [`unix_time_now`], keeping the fact that the
/// reading is one it gave.
pub fn read_clock() -> (now: Option<i64>)
    ensures
        clock_gives(now),
{
    let clock = unix_time_now;
    clock()
}

} // verus!
