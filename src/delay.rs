//! Timer settings of a blocking delay on a basic timer clocked at 16 MHz.
//!
//! The timer counts prescaled ticks up to its auto-reload value and stops at
//! the update event that follows that tick.
use vstd::prelude::*;

verus! {

/// Prescaler for ticks of 1 µs at 16 MHz.
pub const PRESCALER_US: u16 = 16;

/// Prescaler for ticks of 1 ms at 16 MHz.
pub const PRESCALER_MS: u16 = 16_000;

/// Measured overhead of starting and polling the timer, in µs.
pub const OVERHEAD_US: u16 = 3;

/// Prescaler and auto-reload value of one timer run.
#[derive(Clone, Copy, Debug, PartialEq, Eq, Structural)]
pub struct TimerSetting {
    /// Clock cycles per timer tick.
    pub prescaler: u16,
    /// Ticks to count before the update event.
    pub auto_reload: u16,
}

/// The auto-reload register value written for a requested `ticks`: at least
/// 1, since a value of 0 never triggers the update event.
pub fn auto_reload_value(ticks: u16) -> (r: u16)
    ensures
        r == if ticks == 0 {
            1
        } else {
            ticks
        },
{
    if ticks == 0 {
        1
    } else {
        ticks
    }
}

/// The timer run for a delay of `us` microseconds: the overhead and the
/// tick after the auto-reload value are taken off.
pub fn delay_us_setting(us: u16) -> (r: TimerSetting)
    ensures
        r == delay_us_spec(us as int),
{
    let ticks = if us > OVERHEAD_US {
        us - OVERHEAD_US - 1
    } else {
        0
    };
    TimerSetting { prescaler: PRESCALER_US, auto_reload: ticks }
}

/// The timer run for a delay of `ms` milliseconds; up to 1 ms it is counted
/// in microseconds.
pub fn delay_ms_setting(ms: u16) -> (r: TimerSetting)
    ensures
        ms <= 1 ==> r == delay_us_spec(ms * 1000),
        ms > 1 ==> r.prescaler == PRESCALER_MS && r.auto_reload == ms - 1,
{
    if ms <= 1 {
        delay_us_setting(ms * 1000)
    } else {
        TimerSetting { prescaler: PRESCALER_MS, auto_reload: ms - 1 }
    }
}

/// The timer run for `us` microseconds: `PRESCALER_US`, and `us` less the
/// overhead and one tick, or 0 where that is not positive.
pub open spec fn delay_us_spec(us: int) -> TimerSetting {
    TimerSetting {
        prescaler: PRESCALER_US,
        auto_reload: if us > OVERHEAD_US {
            (us - OVERHEAD_US - 1) as u16
        } else {
            0
        },
    }
}

} // verus!
