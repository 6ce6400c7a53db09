use std::time::{Duration, SystemTime, SystemTimeError, UNIX_EPOCH};
use vstd::prelude::*;

verus! {

/// The standard library's clock time.
#[verifier::external_type_specification]
#[verifier::external_body]
pub struct ExSystemTime(SystemTime);

/// The error of `SystemTime::duration_since` for a time earlier than the
/// reference point.
#[verifier::external_type_specification]
#[verifier::external_body]
pub struct ExSystemTimeError(SystemTimeError);

/// `SystemTime::now`: the system clock's current time. Nothing is promised of
/// it.
#[verifier::external_body]
fn system_time_now() -> SystemTime {
    SystemTime::now()
}

/// `SystemTime::duration_since(UNIX_EPOCH)`: how far after the Unix epoch
/// `t` lies, or an error when it lies before it. Nothing is promised of the
/// outcome.
#[verifier::external_body]
fn duration_since_epoch(t: &SystemTime) -> Result<Duration, SystemTimeError> {
    t.duration_since(UNIX_EPOCH)
}

/// `SystemTimeError::duration`: how far before the reference point the time
/// lies. Nothing is promised of it.
#[verifier::external_body]
fn error_duration(e: &SystemTimeError) -> Duration {
    e.duration()
}

/// `Duration::as_secs`: the whole seconds of a duration.
#[verifier::external_body]
fn duration_secs(d: &Duration) -> u64 {
    d.as_secs()
}

/// `Duration::subsec_nanos`: the nanoseconds beyond the whole seconds, which
/// the documentation says are always below one billion.
#[verifier::external_body]
fn duration_subsec_nanos(d: &Duration) -> (res: u32)
    ensures
        res < 1_000_000_000,
{
    d.subsec_nanos()
}

/// Reads the system clock as whether it lies before the Unix epoch, whole
/// seconds and nanoseconds of distance from it.
fn read_system_clock() -> (res: (bool, u64, u32))
    ensures
        res.2 < 1_000_000_000,
{
    let now = system_time_now();
    match duration_since_epoch(&now) {
        Ok(d) => (false, duration_secs(&d), duration_subsec_nanos(&d)),
        Err(e) => {
            let d = error_duration(&e);
            (true, duration_secs(&d), duration_subsec_nanos(&d))
        },
    }
}

/// A clock reading in nanoseconds relative to the Unix epoch: negative for a
/// clock that reads before it.
pub open spec fn reading_nanos(before_epoch: bool, secs: u64, subsec_nanos: u32) -> int {
    if before_epoch {
        -(secs * 1_000_000_000 + subsec_nanos)
    } else {
        secs * 1_000_000_000 + subsec_nanos
    }
}

/// The nanoseconds relative to the Unix epoch of a clock reading.
pub fn epoch_nanos(before_epoch: bool, secs: u64, subsec_nanos: u32) -> (res: i128)
    ensures
        res == reading_nanos(before_epoch, secs, subsec_nanos),
{
    let magnitude: i128 = (secs as i128) * 1_000_000_000i128 + (subsec_nanos as i128);
    if before_epoch {
        -magnitude
    } else {
        magnitude
    }
}

/// Whether some clock reading gives `t` nanoseconds relative to the epoch.
pub open spec fn is_clock_reading(t: int) -> bool {
    exists|before_epoch: bool, secs: u64, subsec_nanos: u32|
        subsec_nanos < 1_000_000_000 && t == reading_nanos(before_epoch, secs, subsec_nanos)
}

/// The current time in nanoseconds relative to the Unix epoch (negative
/// before it).
pub fn now_epoch_nanos() -> (res: i128)
    ensures
        is_clock_reading(res as int),
{
    let (before_epoch, secs, subsec_nanos) = read_system_clock();
    let res = epoch_nanos(before_epoch, secs, subsec_nanos);
    assert(subsec_nanos < 1_000_000_000 && res == reading_nanos(before_epoch, secs, subsec_nanos));
    res
}

/// Whole milliseconds relative to the epoch, rounded down (towards the past),
/// when they fit in an `i64`.
pub open spec fn millis_of(nanos: int) -> Option<i64> {
    let ms = nanos / 1_000_000;
    if i64::MIN <= ms <= i64::MAX {
        Some(ms as i64)
    } else {
        None
    }
}

/// The time `nanos` (relative to the epoch) in whole milliseconds, rounded
/// down; `None` when that does not fit in an `i64`.
pub fn epoch_millis(nanos: i128) -> (res: Option<i64>)
    ensures
        res == millis_of(nanos as int),
{
    let ms: i128 = if nanos >= 0 {
        nanos / 1_000_000
    } else {
        let m: i128 = -((-(nanos + 1)) / 1_000_000) - 1;
        assert(m == (nanos as int) / 1_000_000) by (nonlinear_arith)
            requires
                nanos < 0,
                m == -((-(nanos + 1)) / 1_000_000) - 1,
        ;
        m
    };
    if i64::MIN as i128 <= ms && ms <= i64::MAX as i128 {
        Some(ms as i64)
    } else {
        None
    }
}

} // verus!
