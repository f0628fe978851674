//! The core of a single-threaded TCP event reactor: per-socket buffers,
//! registration entries, the timer queue, and the decisions of the socket
//! table, for a driver that polls the operating system and runs callbacks.
use std::time::{Duration, SystemTime, SystemTimeError, UNIX_EPOCH};
use vstd::prelude::*;

pub mod entry_order;
pub mod event_buffer;
pub mod event_entry;
pub mod event_flags;
pub mod event_loop;
pub mod sys;
pub mod timer;

pub use event_buffer::{Buffer, EventBuffer};
pub use event_entry::{Callbacks, EventEntry};
pub use event_flags::{EventFlags, Flag};
pub use event_loop::{EventLoop, EventLoopConfig, RetValue};
pub use timer::Timer;

verus! {

/// A point in time of the system clock, as `std::time` has it.
#[verifier::external_type_specification]
#[verifier::external_body]
pub struct ExSystemTime(SystemTime);

/// The error of `SystemTime::duration_since`: the second point lies later.
#[verifier::external_type_specification]
#[verifier::external_body]
pub struct ExSystemTimeError(SystemTimeError);

/// `SystemTime::now`: the system clock, of which nothing is promised.
pub assume_specification[ SystemTime::now ]() -> (now: SystemTime)
;

/// `SystemTime::duration_since` with the Unix epoch as the earlier point. It
/// fails where the clock stands before the epoch.
#[verifier::external_body]
fn since_unix_epoch(now: &SystemTime) -> (r: Result<Duration, SystemTimeError>) {
    now.duration_since(UNIX_EPOCH)
}

/// The whole seconds of a duration, as `Duration::as_secs` gives them.
pub uninterp spec fn secs_of(d: Duration) -> u64;

/// The part of a duration below one second in nanoseconds, as
/// `Duration::subsec_nanos` gives it.
pub uninterp spec fn subsec_nanos_of(d: Duration) -> u32;

/// `Duration::as_secs`: the whole seconds of a duration.
pub assume_specification[ Duration::as_secs ](d: &Duration) -> (secs: u64)
    ensures
        secs == secs_of(*d),
;

/// `Duration::subsec_nanos`: the part of a duration below one second, in
/// nanoseconds, which is less than a thousand million.
pub assume_specification[ Duration::subsec_nanos ](d: &Duration) -> (nanos: u32)
    ensures
        nanos == subsec_nanos_of(*d),
        nanos < 1_000_000_000,
;

/// The milliseconds in `secs` seconds and `subsec_nanos` nanoseconds, as far
/// as a `u64` holds them.
pub open spec fn millis_of(secs: u64, subsec_nanos: u32) -> int {
    let exact = secs * 1000 + subsec_nanos / 1_000_000;
    if exact <= u64::MAX {
        exact
    } else {
        u64::MAX as int
    }
}

/// The milliseconds in `secs` seconds and `subsec_nanos` nanoseconds; the
/// greatest `u64` where they do not fit.
pub fn millis_from_parts(secs: u64, subsec_nanos: u32) -> (ms: u64)
    ensures
        ms == millis_of(secs, subsec_nanos),
{
    let extra: u64 = (subsec_nanos / 1_000_000) as u64;
    if secs > (u64::MAX - extra) / 1000 {
        assert(secs * 1000 + extra > u64::MAX) by (nonlinear_arith)
            requires
                secs > (u64::MAX - extra) / 1000,
                extra <= u64::MAX,
        ;
        u64::MAX
    } else {
        assert(secs * 1000 + extra <= u64::MAX) by (nonlinear_arith)
            requires
                secs <= (u64::MAX - extra) / 1000,
                extra <= u64::MAX,
        ;
        secs * 1000 + extra
    }
}

/// The time since the Unix epoch in milliseconds, read from the system clock;
/// zero where the clock stands before the epoch.
pub fn now_micro() -> (ms: u64)
    ensures
        exists|since: Result<Duration, SystemTimeError>| ms == epoch_millis(since),
{
    let now = SystemTime::now();
    let since = since_unix_epoch(&now);
    let ghost given = since;
    let ms = millis_since_epoch(since);
    assert(ms == epoch_millis(given));
    ms
}

/// The milliseconds since the Unix epoch that stand for an answer of the
/// system clock: those of the span where the clock stands behind the
/// epoch, and zero where it stands before it.
pub open spec fn epoch_millis(since: Result<Duration, SystemTimeError>) -> u64 {
    match since {
        Ok(span) => millis_of(secs_of(span), subsec_nanos_of(span)) as u64,
        Err(_) => 0,
    }
}

/// The milliseconds since the Unix epoch for `since`, the span between the
/// epoch and a reading of the system clock: the milliseconds of the span,
/// the greatest `u64` where they do not fit, and zero where the clock stood
/// before the epoch. This is what [`now_micro`] makes of the clock's answer.
pub fn millis_since_epoch(since: Result<Duration, SystemTimeError>) -> (ms: u64)
    ensures
        ms == epoch_millis(since),
{
    match since {
        Ok(span) => millis_from_parts(span.as_secs(), span.subsec_nanos()),
        Err(_) => 0,
    }
}

} // verus!
