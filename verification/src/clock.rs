//! The wall clock, in milliseconds since the Unix epoch.

use vstd::prelude::*;
use std::time::{Duration, SystemTime, UNIX_EPOCH};

verus! {

/// `std::time::SystemTime`, carried through opaquely.
#[verifier::external_type_specification]
#[verifier::external_body]
pub struct ExSystemTime(SystemTime);

/// Nanoseconds in one second.
pub const NANOS_PER_SECOND: u32 = 1_000_000_000;

/// Nanoseconds in one millisecond.
pub const NANOS_PER_MILLI: u32 = 1_000_000;

/// The whole milliseconds in a span of `secs` seconds and `nanos`
/// nanoseconds.
pub open spec fn whole_millis(secs: int, nanos: int) -> int {
    secs * 1000 + nanos / (NANOS_PER_MILLI as int)
}

/// `SystemTime::now`: the current time of the system clock. Nothing is
/// stated of it: it depends on the moment of the call.
#[verifier::external_body]
fn system_time_now() -> SystemTime {
    SystemTime::now()
}

/// `SystemTime::duration_since(UNIX_EPOCH)`: the time since the epoch, or
/// none where the clock reads earlier than the epoch. Nothing more is
/// stated: it depends on the clock.
#[verifier::external_body]
fn duration_since_unix_epoch(t: &SystemTime) -> Option<Duration> {
    t.duration_since(UNIX_EPOCH).ok()
}

/// `Duration::as_secs`: the whole seconds of a duration. Nothing more is
/// stated: a `Duration` is opaque here.
#[verifier::external_body]
fn duration_secs(d: &Duration) -> u64 {
    d.as_secs()
}

/// `Duration::subsec_nanos`: the fractional part of a duration in
/// nanoseconds, which std documents to be less than one billion.
#[verifier::external_body]
fn duration_subsec_nanos(d: &Duration) -> (r: u32)
    ensures
        r < NANOS_PER_SECOND,
{
    d.subsec_nanos()
}

/// The whole milliseconds since the epoch of a clock reading taken as
/// seconds and sub-second nanoseconds since the epoch; a reading before the
/// epoch (`None`) counts as the epoch itself.
pub fn millis_since_epoch(elapsed: Option<(u64, u32)>) -> (r: u128)
    requires
        match elapsed {
            Some((_, nanos)) => nanos < NANOS_PER_SECOND,
            None => true,
        },
    ensures
        r == match elapsed {
            Some((secs, nanos)) => whole_millis(secs as int, nanos as int),
            None => 0,
        },
{
    match elapsed {
        Some((secs, nanos)) => {
            let whole: u128 = (secs as u128) * 1000;
            whole + ((nanos / NANOS_PER_MILLI) as u128)
        },
        None => 0,
    }
}

/// Milliseconds since the Unix epoch by the system clock, 0 where the
/// clock reads earlier than the epoch: always the whole milliseconds of
/// some duration of at most `u64::MAX` seconds and under a billion
/// nanoseconds, the span that the clock reported.
pub fn now_timestamp_ms() -> (r: u128)
    ensures
        exists|secs: u64, nanos: u32|
            nanos < NANOS_PER_SECOND && r == whole_millis(secs as int, nanos as int),
{
    let now = system_time_now();
    let elapsed: Option<(u64, u32)> = match duration_since_unix_epoch(&now) {
        Some(d) => Some((duration_secs(&d), duration_subsec_nanos(&d))),
        None => None,
    };
    let r = millis_since_epoch(elapsed);
    proof {
        match elapsed {
            Some((secs, nanos)) => {
                assert(nanos < NANOS_PER_SECOND && r == whole_millis(secs as int, nanos as int));
            },
            None => {
                assert(0u32 < NANOS_PER_SECOND && r == whole_millis(0u64 as int, 0u32 as int));
            },
        }
    }
    r
}

} // verus!
