//! Conversions between milliseconds and the units of the radio and timer APIs.
use vstd::prelude::*;

verus! {

/// 0.625 ms, in microseconds: the unit of advertising intervals.
pub const UNIT_0_625_MS: u32 = 625;

/// 1.25 ms, in microseconds: the unit of connection intervals.
pub const UNIT_1_25_MS: u32 = 1250;

/// 10 ms, in microseconds: the unit of supervision timeouts.
pub const UNIT_10_MS: u32 = 10000;

/// Frequency of the clock that drives the application timer, in Hz.
pub const APP_TIMER_CLOCK_FREQ: u32 = 32768;

/// Prescaler of the real-time counter behind the application timer.
pub const APP_TIMER_PRESCALER: u32 = 0;

/// `ms` milliseconds in units of `resolution_us` microseconds, rounded down.
pub open spec fn units_for_ms(ms: int, resolution_us: int) -> int {
    ms * 1000 / resolution_us
}

/// `a / b`, rounded to the nearest integer (halves up).
pub open spec fn rounded_div(a: int, b: int) -> int {
    (a + b / 2) / b
}

/// `a / b`, rounded up.
pub open spec fn ceil_div_of(a: int, b: int) -> int {
    (a + b - 1) / b
}

/// `ms` milliseconds in ticks of the application timer, rounded to the nearest tick.
pub open spec fn ticks_for_ms(ms: int) -> int {
    rounded_div(ms * APP_TIMER_CLOCK_FREQ, 1000 * (APP_TIMER_PRESCALER + 1))
}

/// Converts `ms` milliseconds to units of `resolution_us` microseconds, rounding down.
pub fn msec_to_units(ms: u32, resolution_us: u32) -> (u: u64)
    requires
        resolution_us > 0,
    ensures
        u == units_for_ms(ms as int, resolution_us as int),
{
    (ms as u64) * 1000 / (resolution_us as u64)
}

/// Converts `ms` milliseconds to ticks of the application timer, rounding to the
/// nearest tick.
pub fn app_timer_ticks(ms: u32) -> (t: u64)
    ensures
        t == ticks_for_ms(ms as int),
{
    let divisor: u64 = 1000 * (APP_TIMER_PRESCALER as u64 + 1);
    let freq: u64 = APP_TIMER_CLOCK_FREQ as u64;
    assert((ms as u64) * freq <= 0xffff_ffffu64 * 32768) by (nonlinear_arith)
        requires
            ms <= 0xffff_ffffu64,
            freq == 32768,
    ;
    ((ms as u64) * freq + divisor / 2) / divisor
}

/// `a / b`, rounded up.
pub fn ceil_div(a: u32, b: u32) -> (q: u64)
    requires
        b > 0,
    ensures
        q == ceil_div_of(a as int, b as int),
{
    ((a as u64) + (b as u64) - 1) / (b as u64)
}

} // verus!
