use vstd::prelude::*;

use std::time::{Duration, SystemTime, SystemTimeError};

verus! {

#[verifier::external_type_specification]
#[verifier::external_body]
pub struct ExSystemTime(std::time::SystemTime);

#[verifier::external_type_specification]
#[verifier::external_body]
pub struct ExSystemTimeError(std::time::SystemTimeError);

/// Relies on std::time::SystemTime::now: the system clock's current time.
#[verifier::external_body]
fn now() -> (r: SystemTime) {
    SystemTime::now()
}

/// Relies on std::time::SystemTime::duration_since, against UNIX_EPOCH: the
/// time since the epoch, an error for a time before it.
#[verifier::external_body]
fn since_epoch(t: &SystemTime) -> (r: Result<Duration, SystemTimeError>) {
    t.duration_since(std::time::UNIX_EPOCH)
}

/// Relies on std::time::Duration::as_millis: the whole milliseconds.
#[verifier::external_body]
fn whole_millis(d: &Duration) -> (r: u128) {
    d.as_millis()
}

/// A count of milliseconds as a `u64`, held at `u64::MAX` past it.
pub fn clamp_millis(ms: u128) -> (r: u64)
    ensures
        r as int == if ms > u64::MAX {
            u64::MAX as int
        } else {
            ms as int
        },
{
    if ms > u64::MAX as u128 {
        u64::MAX
    } else {
        ms as u64
    }
}

/// Milliseconds since 1 January 1970 UTC; 0 for a clock set before then, and
/// `u64::MAX` past what a `u64` holds.
pub fn timestamp() -> (r: u64) {
    let t = now();
    match since_epoch(&t) {
        Err(_) => 0,
        Ok(d) => clamp_millis(whole_millis(&d)),
    }
}

} // verus!
