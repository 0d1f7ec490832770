use chrono::{Datelike, NaiveDate, NaiveDateTime, Timelike};
use gfroerli::config::{Config, ConfigVersion};
use gfroerli::schedule::{datetime_to_uptime, wakeup_cycle, CalendarTime, MeasurementPlan};

fn calendar_time(dt: NaiveDateTime) -> CalendarTime {
    CalendarTime {
        year: dt.year() as u16,
        ordinal0: dt.ordinal0() as u16,
        seconds_from_midnight: dt.num_seconds_from_midnight(),
    }
}

fn at(y: i32, mo: u32, d: u32, h: u32, mi: u32, s: u32) -> NaiveDateTime {
    NaiveDate::from_ymd_opt(y, mo, d)
        .unwrap()
        .and_hms_opt(h, mi, s)
        .unwrap()
}

#[test]
fn test_datetime_to_uptime_vs_builtin() {
    let reference = at(2001, 1, 1, 0, 0, 0);
    let datetime = at(2098, 11, 28, 13, 14, 15);
    let chrono_builtin = (datetime - reference).num_seconds();
    let gfroerli_firmware = datetime_to_uptime(calendar_time(datetime));
    assert_eq!(gfroerli_firmware as i64, chrono_builtin);
}

#[test]
fn datetime_to_uptime_predefined() {
    let cases = [
        (at(2001, 1, 1, 0, 0, 0), 0),
        (at(2001, 1, 1, 0, 0, 3), 3),
        (at(2001, 1, 1, 20, 10, 59), 72_659),
        (at(2003, 2, 3, 7, 0, 5), 65_948_405),
    ];
    for (datetime, expected) in cases {
        assert_eq!(datetime_to_uptime(calendar_time(datetime)), expected);
    }
}

#[test]
fn datetime_to_uptime_across_leap_years() {
    let reference = at(2001, 1, 1, 0, 0, 0);
    for (y, mo, d) in [(2004, 2, 29), (2004, 12, 31), (2005, 1, 1), (2024, 3, 1), (2099, 12, 31)] {
        let datetime = at(y, mo, d, 23, 59, 59);
        let expected = (datetime - reference).num_seconds();
        assert_eq!(datetime_to_uptime(calendar_time(datetime)) as i64, expected);
    }
}

#[test]
fn wakeup_cycle_counts_whole_intervals() {
    assert_eq!(wakeup_cycle(0, 900), 0);
    assert_eq!(wakeup_cycle(899, 900), 0);
    assert_eq!(wakeup_cycle(900, 900), 1);
    assert_eq!(wakeup_cycle(3_601, 900), 4);
}

#[test]
fn plan_for_cycle() {
    let plan = MeasurementPlan::for_cycle(4, 1, 4);
    assert_eq!(
        plan,
        MeasurementPlan { measure_sht: true, measure_ds18b20: true, measure_voltage: true }
    );
    let plan = MeasurementPlan::for_cycle(5, 1, 4);
    assert_eq!(
        plan,
        MeasurementPlan { measure_sht: true, measure_ds18b20: true, measure_voltage: false }
    );
    let plan = MeasurementPlan::for_cycle(5, 2, 4);
    assert!(!plan.should_transmit());
}

#[test]
fn plan_for_uptime() {
    let config = Config {
        version: ConfigVersion::V1,
        devaddr: [0; 4],
        nwkskey: [0; 16],
        appskey: [0; 16],
        wakeup_interval_seconds: 900,
        nth_temp_humi: 1,
        nth_voltage: 4,
    };
    // cycle 3: temperature and humidity only
    let plan = MeasurementPlan::for_uptime(3 * 900 + 10, &config);
    assert!(plan.measure_sht && plan.measure_ds18b20 && !plan.measure_voltage);
    assert!(plan.should_transmit());
    // cycle 8: everything
    let plan = MeasurementPlan::for_uptime(8 * 900, &config);
    assert!(plan.measure_voltage);
}
