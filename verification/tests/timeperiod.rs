use chrono::{TimeZone, Utc};
use race_of_sloths::timeperiod::{
    timestamp_to_day_string, timestamp_to_month_string, timestamp_to_quarter_string,
    timestamp_to_week_string, TimePeriod, Timestamp,
};

fn nanos(y: i32, m: u32, d: u32, h: u32, min: u32) -> Timestamp {
    Utc.with_ymd_and_hms(y, m, d, h, min, 0)
        .unwrap()
        .timestamp_nanos_opt()
        .unwrap() as Timestamp
}

fn seconds(y: i32, m: u32, d: u32) -> i64 {
    Utc.with_ymd_and_hms(y, m, d, 0, 0, 0).unwrap().timestamp()
}

#[test]
fn test_from_streak_type() {
    assert_eq!(TimePeriod::from_streak_type("daily"), Some(TimePeriod::Day));
    assert_eq!(
        TimePeriod::from_streak_type("weekly"),
        Some(TimePeriod::Week)
    );
    assert_eq!(
        TimePeriod::from_streak_type("monthly"),
        Some(TimePeriod::Month)
    );
    assert_eq!(
        TimePeriod::from_streak_type("quarterly"),
        Some(TimePeriod::Quarter)
    );
    assert_eq!(
        TimePeriod::from_streak_type("yearly"),
        Some(TimePeriod::Year)
    );
    assert_eq!(
        TimePeriod::from_streak_type("all-time"),
        Some(TimePeriod::AllTime)
    );
    assert_eq!(TimePeriod::from_streak_type("unknown"), None);
}

#[test]
fn test_time_string() {
    let timestamp = nanos(2023, 6, 20, 0, 0);

    assert_eq!(TimePeriod::Day.time_string(timestamp), "20062023");
    assert_eq!(TimePeriod::Week.time_string(timestamp), "2023W25");
    assert_eq!(TimePeriod::Month.time_string(timestamp), "062023");
    assert_eq!(TimePeriod::Quarter.time_string(timestamp), "2023Q2");
    assert_eq!(TimePeriod::Year.time_string(timestamp), "2023");
    assert_eq!(
        TimePeriod::AllTime.time_string(timestamp),
        "all-time".to_string()
    );
}

#[test]
fn test_previous_period() {
    let timestamp = nanos(2023, 6, 20, 0, 0);

    let previous_day = nanos(2023, 6, 19, 0, 0);
    assert_eq!(
        TimePeriod::Day.previous_period(timestamp),
        Some(previous_day)
    );

    let previous_week = nanos(2023, 6, 13, 0, 0);
    assert_eq!(
        TimePeriod::Week.previous_period(timestamp),
        Some(previous_week)
    );

    let previous_month = nanos(2023, 5, 20, 0, 0);
    assert_eq!(
        TimePeriod::Month.previous_period(timestamp),
        Some(previous_month)
    );

    let previous_quarter = nanos(2023, 3, 20, 0, 0);
    assert_eq!(
        TimePeriod::Quarter.previous_period(timestamp),
        Some(previous_quarter)
    );

    let previous_year = nanos(2022, 6, 20, 0, 0);
    assert_eq!(
        TimePeriod::Year.previous_period(timestamp),
        Some(previous_year)
    );

    assert_eq!(TimePeriod::AllTime.previous_period(timestamp), None);
}

#[test]
fn test_timestamp_to_day_string() {
    let timestamp = nanos(2023, 6, 20, 0, 0);
    assert_eq!(timestamp_to_day_string(timestamp), "20062023");
}

#[test]
fn test_timestamp_to_week_string() {
    let timestamp = nanos(2023, 6, 20, 0, 0);
    assert_eq!(timestamp_to_week_string(timestamp), "2023W25");
}

#[test]
fn test_timestamp_to_quarter_string() {
    let timestamp = nanos(2023, 6, 20, 0, 0);
    assert_eq!(timestamp_to_quarter_string(timestamp), "2023Q2");
}

#[test]
fn test_timestamp_to_month_string() {
    let timestamp = nanos(2023, 6, 20, 0, 0);
    assert_eq!(timestamp_to_month_string(timestamp), "062023");
}

#[test]
fn test_end_period() {
    let timestamp = nanos(2023, 5, 16, 5, 13);

    let end_day = seconds(2023, 5, 17);
    assert_eq!(TimePeriod::Day.end_period(timestamp), Some(end_day));

    let end_week = seconds(2023, 5, 22);
    assert_eq!(TimePeriod::Week.end_period(timestamp), Some(end_week));

    let end_month = seconds(2023, 6, 1);
    assert_eq!(TimePeriod::Month.end_period(timestamp), Some(end_month));

    let end_quarter = seconds(2023, 7, 1);
    assert_eq!(TimePeriod::Quarter.end_period(timestamp), Some(end_quarter));

    let end_year = seconds(2024, 1, 1);
    assert_eq!(TimePeriod::Year.end_period(timestamp), Some(end_year));
}

#[test]
fn test_start_period() {
    let timestamp = nanos(2023, 5, 16, 5, 13);

    let start_day = seconds(2023, 5, 16);
    assert_eq!(TimePeriod::Day.start_period(timestamp), Some(start_day));

    let start_week = seconds(2023, 5, 15);
    assert_eq!(TimePeriod::Week.start_period(timestamp), Some(start_week));

    let start_month = seconds(2023, 5, 1);
    assert_eq!(TimePeriod::Month.start_period(timestamp), Some(start_month));

    let start_quarter = seconds(2023, 4, 1);
    assert_eq!(
        TimePeriod::Quarter.start_period(timestamp),
        Some(start_quarter)
    );

    let start_year = seconds(2023, 1, 1);
    assert_eq!(TimePeriod::Year.start_period(timestamp), Some(start_year));
}

#[test]
fn end_period_rolls_over_year_and_quarter() {
    let december = nanos(2023, 12, 31, 23, 59);
    assert_eq!(TimePeriod::Month.end_period(december), Some(seconds(2024, 1, 1)));
    assert_eq!(TimePeriod::Quarter.end_period(december), Some(seconds(2024, 1, 1)));
    assert_eq!(TimePeriod::Quarter.start_period(december), Some(seconds(2023, 10, 1)));
    assert_eq!(TimePeriod::AllTime.end_period(december), None);
    assert_eq!(TimePeriod::AllTime.start_period(december), None);
}

#[test]
fn from_streak_type_ignores_case() {
    assert_eq!(TimePeriod::from_streak_type("Weekly"), Some(TimePeriod::Week));
    assert_eq!(TimePeriod::from_streak_type("ALL-TIME"), Some(TimePeriod::AllTime));
    assert_eq!(TimePeriod::from_lowercase_name("Weekly"), None);
}

#[test]
fn day_string_pads_with_zeros() {
    let timestamp = nanos(2024, 1, 5, 12, 0);
    assert_eq!(timestamp_to_day_string(timestamp), "05012024");
    assert_eq!(timestamp_to_month_string(timestamp), "012024");
    assert_eq!(TimePeriod::Quarter.time_string(timestamp), "2024Q1");
    assert_eq!(TimePeriod::Week.time_string(timestamp), "2024W1");
}
