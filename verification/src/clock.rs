//! The wall clock, read in whole seconds since the Unix epoch.
use vstd::prelude::*;

use std::time::{Duration, SystemTime};

verus! {

#[verifier::external_type_specification]
#[verifier::external_body]
pub struct ExSystemTime(std::time::SystemTime);

/// `SystemTime::now`: a reading of the system clock. Nothing is stated of
/// it: it depends on the machine and the moment.
#[verifier::external_body]
fn system_time_now() -> SystemTime {
    SystemTime::now()
}

/// `SystemTime::duration_since` the Unix epoch: `None` where the reading
/// lies before the epoch. Nothing is stated of the duration.
#[verifier::external_body]
fn duration_since_epoch(t: &SystemTime) -> Option<Duration> {
    match t.duration_since(std::time::UNIX_EPOCH) {
        Ok(d) => Some(d),
        Err(_) => None,
    }
}

/// `Duration::as_secs`: the whole seconds of a duration, which Verus sees
/// as an opaque value.
#[verifier::external_body]
fn whole_seconds(d: &Duration) -> u64 {
    d.as_secs()
}

/// Seconds since the Unix epoch by the system clock; 0 where the clock
/// reads before the epoch.
pub fn current_timestamp() -> u64 {
    let now = system_time_now();
    match duration_since_epoch(&now) {
        Some(d) => whole_seconds(&d),
        None => 0,
    }
}

} // verus!
