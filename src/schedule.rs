//! What a wake-up measures: the uptime since the real-time clock's epoch
//! (2001-01-01 00:00:00), the wake-up cycle that it falls in, and the sensors
//! that the configuration asks for in that cycle.
use vstd::prelude::*;

use crate::config::Config;

verus! {

/// Year of the real-time clock's epoch.
pub const EPOCH_YEAR: u16 = 2001;

/// Last year for which the uptime fits the arithmetic of this module.
pub const LAST_YEAR: u16 = 2099;

/// Seconds in a day.
pub const SECONDS_PER_DAY: u32 = 86_400;

/// A point in time as the real-time clock reports it.
#[derive(Clone, Copy, Debug, PartialEq, Eq, Structural)]
pub struct CalendarTime {
    /// The year, e.g. 2021.
    pub year: u16,
    /// Day of the year, counted from 0 for January 1.
    pub ordinal0: u16,
    /// Seconds since midnight.
    pub seconds_from_midnight: u32,
}

/// `year` is a leap year of the Gregorian calendar.
pub open spec fn is_leap_year(year: int) -> bool {
    year % 4 == 0 && (year % 100 != 0 || year % 400 == 0)
}

/// Number of days of `year`.
pub open spec fn days_in_year(year: int) -> nat {
    if is_leap_year(year) {
        366
    } else {
        365
    }
}

/// Number of days from the start of the epoch year to the start of `year`.
pub open spec fn days_before_year(year: int) -> nat
    decreases year - EPOCH_YEAR,
{
    if year <= EPOCH_YEAR {
        0
    } else {
        days_before_year(year - 1) + days_in_year(year - 1)
    }
}

impl CalendarTime {
    /// The time lies within the supported years and is a real time of day.
    pub open spec fn wf(self) -> bool {
        &&& EPOCH_YEAR <= self.year <= LAST_YEAR
        &&& self.ordinal0 < days_in_year(self.year as int)
        &&& self.seconds_from_midnight < SECONDS_PER_DAY
    }

    /// Seconds since 2001-01-01 00:00:00.
    pub open spec fn seconds_since_epoch(self) -> nat {
        ((days_before_year(self.year as int) + self.ordinal0) * SECONDS_PER_DAY
            + self.seconds_from_midnight) as nat
    }
}

/// Between the epoch and 2100 the days before a year are 365 per year and
/// one per leap year, a leap year being every fourth one from 2004 on.
proof fn lemma_days_before_year(year: int)
    requires
        EPOCH_YEAR <= year <= LAST_YEAR + 1,
    ensures
        days_before_year(year) == 365 * (year - EPOCH_YEAR) + (if year >= 2004 {
            year - 2004
        } else {
            0
        } + 3) / 4,
    decreases year - EPOCH_YEAR,
{
    if year > EPOCH_YEAR {
        lemma_days_before_year(year - 1);
    }
}

/// Seconds of uptime at `dt`, the clock having started at 2001-01-01 00:00:00.
///
/// Works in 32-bit arithmetic only, which covers the years 2001 to 2099.
pub fn datetime_to_uptime(dt: CalendarTime) -> (r: u32)
    requires
        dt.wf(),
    ensures
        r == dt.seconds_since_epoch(),
{
    let h: u32 = 3_600;
    let d: u32 = 24 * h;
    let y: u32 = 365 * d;
    let year = dt.year as u32;
    let full_leap_years: u32 = ((if year >= 2004 {
        year - 2004
    } else {
        0
    }) + 3) / 4;
    proof {
        lemma_days_before_year(dt.year as int);
    }
    let full_year_seconds = (year - 2001) * y + full_leap_years * d;
    let full_day_seconds = dt.ordinal0 as u32 * d;
    let current_day_seconds = dt.seconds_from_midnight;
    assert(full_year_seconds == days_before_year(dt.year as int) * SECONDS_PER_DAY) by (
    nonlinear_arith)
        requires
            full_year_seconds == (year - 2001) * (365 * 86400) + full_leap_years * 86400,
            days_before_year(dt.year as int) == 365 * (year - 2001) + full_leap_years,
    ;
    full_year_seconds + full_day_seconds + current_day_seconds
}

/// The sensors that one wake-up reads.
#[derive(Clone, Copy, Debug, PartialEq, Eq, Structural)]
pub struct MeasurementPlan {
    /// Read the temperature and humidity sensor.
    pub measure_sht: bool,
    /// Read the water temperature sensor.
    pub measure_ds18b20: bool,
    /// Read the supply voltage.
    pub measure_voltage: bool,
}

impl MeasurementPlan {
    /// The plan of wake-up cycle `wakeup_cycle` (counted from 0): temperature
    /// and humidity on every `nth_temp_humi`-th cycle, the supply voltage on
    /// every `nth_voltage`-th cycle.
    pub fn for_cycle(wakeup_cycle: u32, nth_temp_humi: u8, nth_voltage: u8) -> (r: Self)
        requires
            nth_temp_humi > 0,
            nth_voltage > 0,
        ensures
            r.measure_sht == (wakeup_cycle % nth_temp_humi as u32 == 0),
            r.measure_ds18b20 == (wakeup_cycle % nth_temp_humi as u32 == 0),
            r.measure_voltage == (wakeup_cycle % nth_voltage as u32 == 0),
    {
        let measure_temp_humi = wakeup_cycle % (nth_temp_humi as u32) == 0;
        let measure_voltage = wakeup_cycle % (nth_voltage as u32) == 0;
        MeasurementPlan {
            measure_sht: measure_temp_humi,
            measure_ds18b20: measure_temp_humi,
            measure_voltage,
        }
    }

    /// The plan of the wake-up at `uptime` seconds under `config`.
    pub fn for_uptime(uptime: u32, config: &Config) -> (r: Self)
        requires
            config.wakeup_interval_seconds > 0,
            config.nth_temp_humi > 0,
            config.nth_voltage > 0,
        ensures
            r.measure_sht == (wakeup_cycle_of(uptime, config.wakeup_interval_seconds)
                % config.nth_temp_humi as nat == 0),
            r.measure_ds18b20 == r.measure_sht,
            r.measure_voltage == (wakeup_cycle_of(uptime, config.wakeup_interval_seconds)
                % config.nth_voltage as nat == 0),
    {
        let cycle = wakeup_cycle(uptime, config.wakeup_interval_seconds);
        Self::for_cycle(cycle, config.nth_temp_humi, config.nth_voltage)
    }

    /// At least one sensor is read, so that a measurement is sent.
    pub fn should_transmit(self) -> (r: bool)
        ensures
            r == (self.measure_sht || self.measure_ds18b20 || self.measure_voltage),
    {
        self.measure_sht || self.measure_ds18b20 || self.measure_voltage
    }
}

/// Number of whole wake-up intervals before `uptime`.
pub open spec fn wakeup_cycle_of(uptime: u32, wakeup_interval_seconds: u16) -> nat {
    uptime as nat / wakeup_interval_seconds as nat
}

/// The wake-up cycle (counted from 0) that `uptime` seconds fall in.
pub fn wakeup_cycle(uptime: u32, wakeup_interval_seconds: u16) -> (r: u32)
    requires
        wakeup_interval_seconds > 0,
    ensures
        r == wakeup_cycle_of(uptime, wakeup_interval_seconds),
{
    uptime / wakeup_interval_seconds as u32
}

} // verus!
