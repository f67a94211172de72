//! Time arithmetic, done by `embassy_time` on its one-megahertz tick.

use vstd::prelude::*;

verus! {

/// Microseconds in one second.
pub const MICROS_PER_SECOND: u64 = 1_000_000;

/// Length in microseconds of one period of a task that runs `hz` times a
/// second: a single microsecond from one megahertz on, otherwise the
/// second divided by `hz` and rounded to the nearest microsecond.
pub open spec fn period_of(hz: u64) -> int {
    if hz >= MICROS_PER_SECOND {
        1
    } else {
        (MICROS_PER_SECOND + hz / 2) / (hz as int)
    }
}

/// Microseconds from `earlier` to `later`.
pub open spec fn elapsed(earlier: u64, later: u64) -> int {
    later - earlier
}

/// Calls `embassy_time::Duration::from_hz` and reads the duration back with
/// `Duration::as_micros`. Trusted, for the tick of one microsecond that this
/// crate builds `embassy_time` with: the duration is one tick when `hz` is at
/// least the tick rate, and otherwise the tick rate plus half of `hz`,
/// divided by `hz` and rounded down; read in microseconds it is its number
/// of ticks. A rate of zero would divide by zero there.
#[verifier::external_body]
pub(crate) fn period_micros(hz: u64) -> (micros: u64)
    requires
        hz > 0,
    ensures
        micros == period_of(hz),
{
    embassy_time::Duration::from_hz(hz).as_micros()
}

/// Makes two `embassy_time::Instant`s with `Instant::from_micros`, subtracts
/// the earlier from the later and reads the duration back with
/// `Duration::as_micros`. Trusted, for the tick of one microsecond that this
/// crate builds `embassy_time` with: an instant made from microseconds holds
/// that many ticks, the difference of two instants is the difference of
/// their ticks, and the subtraction panics only where the instant taken
/// away is the later one.
#[verifier::external_body]
pub(crate) fn micros_between(earlier: u64, later: u64) -> (micros: u64)
    requires
        earlier <= later,
    ensures
        micros == elapsed(earlier, later),
{
    (embassy_time::Instant::from_micros(later) - embassy_time::Instant::from_micros(earlier)).as_micros()
}

} // verus!
