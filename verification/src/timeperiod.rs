//! Calendar periods (day, ISO week, month, quarter, year, all time): the
//! strings that identify the period a timestamp falls in, the timestamp one
//! period earlier, and the instants at which a period starts and ends.
//!
//! Timestamps are nanoseconds since the UNIX epoch, as elsewhere in the
//! library; period boundaries are UNIX seconds of a UTC midnight.
use chrono::{Datelike, TimeZone};
use vstd::prelude::*;

use crate::text::{
    chars_equal, chars_of, decimal, lowercase_of, push_decimal, push_padded, push_str,
    to_lowercase, zero_padded,
};

verus! {

/// Nanoseconds since the UNIX epoch.
pub type Timestamp = u64;

/// The identifier of one period, such as `"2023W25"` or `"all-time"`.
pub type TimePeriodString = String;

/// UNIX seconds of an instant.
pub type UnixSeconds = i64;

/// An optional machine integer, as a mathematical one.
pub open spec fn opt_int(o: Option<i64>) -> Option<int> {
    match o {
        Some(n) => Some(n as int),
        None => None,
    }
}

// ---------------------------------------------------------------------------
// What chrono computes on dates.
// ---------------------------------------------------------------------------
/// `(year, month, day)` of the UTC date at `timestamp` nanoseconds
/// (`DateTime::from_timestamp_nanos` with the `Datelike` getters).
pub uninterp spec fn utc_date_of(timestamp: u64) -> (int, int, int);

/// `(ISO year, ISO week)` of the UTC date at `timestamp` nanoseconds.
pub uninterp spec fn iso_week_of(timestamp: u64) -> (int, int);

/// Nanoseconds in a second.
pub const NANOS_PER_SECOND: i64 = 1_000_000_000;

/// Seconds in a day.
pub const SECONDS_PER_DAY: i64 = 86_400;

/// UNIX seconds of the midnight that starts the UTC date of `timestamp`
/// (read, as chrono does, as `i64` nanoseconds): its seconds rounded down
/// to a whole number of days.
pub open spec fn day_start_of(timestamp: u64) -> Option<int> {
    Some((timestamp as i64) as int / NANOS_PER_SECOND as int / SECONDS_PER_DAY as int
        * SECONDS_PER_DAY as int)
}

/// UNIX seconds of the midnight that starts the UTC date after that of
/// `timestamp`: a day after the start of its date.
pub open spec fn next_day_start_of(timestamp: u64) -> Option<int> {
    match day_start_of(timestamp) {
        Some(s) => Some(s + SECONDS_PER_DAY as int),
        None => None,
    }
}

/// UNIX seconds of midnight on the Monday of ISO week `week` of `iso_year`,
/// if chrono accepts that week.
pub uninterp spec fn iso_monday_start_of(iso_year: int, week: int) -> Option<int>;

/// UNIX seconds of UTC midnight on the given date, if chrono accepts it.
pub uninterp spec fn utc_midnight_of(year: int, month: int, day: int) -> Option<int>;

/// The timestamp `days` calendar days before `timestamp`, if representable.
pub uninterp spec fn days_before_of(timestamp: u64, days: int) -> Option<int>;

/// The timestamp `months` calendar months before `timestamp`, if
/// representable.
pub uninterp spec fn months_before_of(timestamp: u64, months: int) -> Option<int>;

/// Calls `DateTime::from_timestamp_nanos` on the timestamp taken as an `i64`
/// and reads year, month and day. The result is named `utc_date_of`; chrono
/// documents months as 1..=12, days as 1..=31, and that the `i64` nanosecond
/// range spans the dates from 1677-09-21 to 2262-04-11.
#[verifier::external_body]
pub(crate) fn utc_date(timestamp: u64) -> (res: (i32, u32, u32))
    ensures
        (res.0 as int, res.1 as int, res.2 as int) == utc_date_of(timestamp),
        1677 <= res.0 <= 2262,
        1 <= res.1 <= 12,
        1 <= res.2 <= 31,
{
    let date = chrono::DateTime::from_timestamp_nanos(timestamp as i64);
    (date.year(), date.month(), date.day())
}

/// Calls `DateTime::from_timestamp_nanos` and `Datelike::iso_week`; the
/// result is named `iso_week_of`. chrono documents the week as 1..=53.
#[verifier::external_body]
fn utc_iso_week(timestamp: u64) -> (res: (i32, u32))
    ensures
        (res.0 as int, res.1 as int) == iso_week_of(timestamp),
        1 <= res.1 <= 53,
{
    let week = chrono::DateTime::from_timestamp_nanos(timestamp as i64).date_naive().iso_week();
    (week.year(), week.week())
}

/// Calls `DateTime::date_naive` and `NaiveDate::and_hms_opt(0, 0, 0)`; the
/// result, in UNIX seconds, is `day_start_of`: chrono counts days from the
/// epoch by Euclidean division of the seconds, and midnight of a date is
/// always valid.
#[verifier::external_body]
fn day_start(timestamp: u64) -> (res: Option<i64>)
    ensures
        opt_int(res) == day_start_of(timestamp),
{
    let date = chrono::DateTime::from_timestamp_nanos(timestamp as i64).date_naive();
    match date.and_hms_opt(0, 0, 0) {
        Some(d) => Some(d.and_utc().timestamp()),
        None => None,
    }
}

/// Adds `chrono::Duration::days(1)` to the UTC date of the timestamp, then
/// calls `and_hms_opt(0, 0, 0)`; the result is `next_day_start_of`, a day
/// after the start of the date (the dates of `i64` nanoseconds are far
/// inside chrono's range, so adding a day does not overflow).
#[verifier::external_body]
fn next_day_start(timestamp: u64) -> (res: Option<i64>)
    ensures
        opt_int(res) == next_day_start_of(timestamp),
{
    let date = chrono::DateTime::from_timestamp_nanos(timestamp as i64).date_naive();
    match (date + chrono::Duration::days(1)).and_hms_opt(0, 0, 0) {
        Some(d) => Some(d.and_utc().timestamp()),
        None => None,
    }
}

/// Calls `NaiveDate::from_isoywd_opt(iso_year, week, Weekday::Mon)` and
/// `and_hms_opt(0, 0, 0)`; the result is named `iso_monday_start_of`.
#[verifier::external_body]
fn iso_monday_start(iso_year: i32, week: u32) -> (res: Option<i64>)
    ensures
        opt_int(res) == iso_monday_start_of(iso_year as int, week as int),
{
    match chrono::NaiveDate::from_isoywd_opt(iso_year, week, chrono::Weekday::Mon) {
        Some(d) => match d.and_hms_opt(0, 0, 0) {
            Some(t) => Some(t.and_utc().timestamp()),
            None => None,
        },
        None => None,
    }
}

/// Calls `Utc.with_ymd_and_hms(year, month, day, 0, 0, 0).earliest()`; the
/// result is named `utc_midnight_of`.
#[verifier::external_body]
fn utc_midnight(year: i32, month: u32, day: u32) -> (res: Option<i64>)
    ensures
        opt_int(res) == utc_midnight_of(year as int, month as int, day as int),
{
    match chrono::Utc.with_ymd_and_hms(year, month, day, 0, 0, 0).earliest() {
        Some(d) => Some(d.timestamp()),
        None => None,
    }
}

/// Calls `DateTime::checked_sub_days(Days::new(days))` and
/// `timestamp_nanos_opt`; the result is named `days_before_of`.
#[verifier::external_body]
fn days_before(timestamp: u64, days: u64) -> (res: Option<i64>)
    ensures
        opt_int(res) == days_before_of(timestamp, days as int),
{
    let date = chrono::DateTime::from_timestamp_nanos(timestamp as i64);
    match date.checked_sub_days(chrono::Days::new(days)) {
        Some(d) => d.timestamp_nanos_opt(),
        None => None,
    }
}

/// Calls `DateTime::checked_sub_months(Months::new(months))` and
/// `timestamp_nanos_opt`; the result is named `months_before_of`.
#[verifier::external_body]
fn months_before(timestamp: u64, months: u32) -> (res: Option<i64>)
    ensures
        opt_int(res) == months_before_of(timestamp, months as int),
{
    let date = chrono::DateTime::from_timestamp_nanos(timestamp as i64);
    match date.checked_sub_months(chrono::Months::new(months)) {
        Some(d) => d.timestamp_nanos_opt(),
        None => None,
    }
}

// ---------------------------------------------------------------------------
// Periods.
// ---------------------------------------------------------------------------
/// A kind of period over which activity is counted.
#[derive(PartialEq, Eq, Structural, Clone, Copy, Debug)]
pub enum TimePeriod {
    Day,
    Week,
    Month,
    Quarter,
    Year,
    AllTime,
}

/// The period that a (lower-case) streak type names.
pub open spec fn period_of_name(name: Seq<char>) -> Option<TimePeriod> {
    if name == "daily"@ {
        Some(TimePeriod::Day)
    } else if name == "weekly"@ {
        Some(TimePeriod::Week)
    } else if name == "monthly"@ {
        Some(TimePeriod::Month)
    } else if name == "quarterly"@ {
        Some(TimePeriod::Quarter)
    } else if name == "yearly"@ {
        Some(TimePeriod::Year)
    } else if name == "all-time"@ {
        Some(TimePeriod::AllTime)
    } else {
        None
    }
}

/// `DDMMYYYY` of a date.
pub open spec fn day_string(date: (int, int, int)) -> Seq<char> {
    zero_padded(date.2 as nat, 2) + zero_padded(date.1 as nat, 2) + zero_padded(date.0 as nat, 4)
}

/// `<year>W<week>`.
pub open spec fn week_string(year: int, week: int) -> Seq<char> {
    decimal(year as nat) + seq!['W'] + decimal(week as nat)
}

/// `MMYYYY` of a date.
pub open spec fn month_string(date: (int, int, int)) -> Seq<char> {
    zero_padded(date.1 as nat, 2) + zero_padded(date.0 as nat, 4)
}

/// The quarter (1 to 4) that a month (1 to 12) falls in.
pub open spec fn quarter_of_month(month: int) -> int {
    (month - 1) / 3 + 1
}

/// `<year>Q<quarter>` of a date.
pub open spec fn quarter_string(date: (int, int, int)) -> Seq<char> {
    decimal(date.0 as nat) + seq!['Q'] + decimal(quarter_of_month(date.1) as nat)
}

/// The first month of the quarter after the one that `month` falls in, and
/// whether that quarter is in the next year.
pub open spec fn next_quarter_start(month: int) -> (bool, int) {
    if quarter_of_month(month) == 4 {
        (true, 1)
    } else {
        (false, quarter_of_month(month) * 3 + 1)
    }
}

impl TimePeriod {
    /// The identifier of the period of this kind that contains `timestamp`.
    pub open spec fn spec_time_string(self, timestamp: u64) -> Seq<char> {
        match self {
            TimePeriod::Day => day_string(utc_date_of(timestamp)),
            TimePeriod::Week => week_string(utc_date_of(timestamp).0, iso_week_of(timestamp).1),
            TimePeriod::Month => month_string(utc_date_of(timestamp)),
            TimePeriod::Quarter => quarter_string(utc_date_of(timestamp)),
            TimePeriod::Year => decimal(utc_date_of(timestamp).0 as nat),
            TimePeriod::AllTime => "all-time"@,
        }
    }

    /// The timestamp one period of this kind before `timestamp`.
    pub open spec fn spec_previous_period(self, timestamp: u64) -> Option<u64> {
        let earlier = match self {
            TimePeriod::Day => days_before_of(timestamp, 1),
            TimePeriod::Week => days_before_of(timestamp, 7),
            TimePeriod::Month => months_before_of(timestamp, 1),
            TimePeriod::Quarter => months_before_of(timestamp, 3),
            TimePeriod::Year => months_before_of(timestamp, 12),
            TimePeriod::AllTime => None,
        };
        match earlier {
            Some(n) => Some(n as u64),
            None => None,
        }
    }

    /// The instant at which the period of this kind containing `timestamp`
    /// ends (the start of the next one).
    pub open spec fn spec_end_period(self, timestamp: u64) -> Option<int> {
        let (y, m, d) = utc_date_of(timestamp);
        match self {
            TimePeriod::Day => next_day_start_of(timestamp),
            TimePeriod::Week => iso_monday_start_of(
                iso_week_of(timestamp).0,
                iso_week_of(timestamp).1 + 1,
            ),
            TimePeriod::Month => if m == 12 {
                utc_midnight_of(y + 1, 1, 1)
            } else {
                utc_midnight_of(y, m + 1, 1)
            },
            TimePeriod::Quarter => {
                let (next_year, first_month) = next_quarter_start(m);
                utc_midnight_of(if next_year { y + 1 } else { y }, first_month, 1)
            },
            TimePeriod::Year => utc_midnight_of(y + 1, 1, 1),
            TimePeriod::AllTime => None,
        }
    }

    /// The instant at which the period of this kind containing `timestamp`
    /// starts.
    pub open spec fn spec_start_period(self, timestamp: u64) -> Option<int> {
        let (y, m, d) = utc_date_of(timestamp);
        match self {
            TimePeriod::Day => day_start_of(timestamp),
            TimePeriod::Week => iso_monday_start_of(
                iso_week_of(timestamp).0,
                iso_week_of(timestamp).1,
            ),
            TimePeriod::Month => utc_midnight_of(y, m, 1),
            TimePeriod::Quarter => utc_midnight_of(y, quarter_of_month(m) * 3 - 2, 1),
            TimePeriod::Year => utc_midnight_of(y, 1, 1),
            TimePeriod::AllTime => None,
        }
    }

    /// The period named by an already lower-cased streak type.
    pub fn from_lowercase_name(name: &str) -> (res: Option<TimePeriod>)
        ensures
            res == period_of_name(name@),
    {
        let cs = chars_of(name);
        if chars_equal(&cs, "daily") {
            Some(TimePeriod::Day)
        } else if chars_equal(&cs, "weekly") {
            Some(TimePeriod::Week)
        } else if chars_equal(&cs, "monthly") {
            Some(TimePeriod::Month)
        } else if chars_equal(&cs, "quarterly") {
            Some(TimePeriod::Quarter)
        } else if chars_equal(&cs, "yearly") {
            Some(TimePeriod::Year)
        } else if chars_equal(&cs, "all-time") {
            Some(TimePeriod::AllTime)
        } else {
            None
        }
    }

    /// The period that a streak type names, ignoring case.
    pub fn from_streak_type(type_: &str) -> (res: Option<TimePeriod>)
        ensures
            res == period_of_name(lowercase_of(type_@)),
    {
        let lower = to_lowercase(type_);
        TimePeriod::from_lowercase_name(lower.as_str())
    }

    /// The identifier of the period of this kind that contains `timestamp`.
    pub fn time_string(&self, timestamp: Timestamp) -> (res: TimePeriodString)
        ensures
            res@ == self.spec_time_string(timestamp),
    {
        match self {
            TimePeriod::Day => timestamp_to_day_string(timestamp),
            TimePeriod::Week => timestamp_to_week_string(timestamp),
            TimePeriod::Month => timestamp_to_month_string(timestamp),
            TimePeriod::Quarter => timestamp_to_quarter_string(timestamp),
            TimePeriod::Year => {
                let (y, _m, _d) = utc_date(timestamp);
                let mut s = String::new();
                push_decimal(&mut s, y as u64);
                assert(s@ =~= decimal(y as nat));
                s
            },
            TimePeriod::AllTime => {
                let mut s = String::new();
                push_str(&mut s, "all-time");
                assert(s@ =~= "all-time"@);
                s
            },
        }
    }

    /// The timestamp one period of this kind before `timestamp`; `None` for
    /// all time, or where chrono cannot represent the result.
    pub fn previous_period(&self, timestamp: Timestamp) -> (res: Option<Timestamp>)
        ensures
            res == self.spec_previous_period(timestamp),
    {
        let earlier = match self {
            TimePeriod::Day => days_before(timestamp, 1),
            TimePeriod::Week => days_before(timestamp, 7),
            TimePeriod::Month => months_before(timestamp, 1),
            TimePeriod::Quarter => months_before(timestamp, 3),
            TimePeriod::Year => months_before(timestamp, 12),
            TimePeriod::AllTime => {
                return None;
            },
        };
        match earlier {
            Some(n) => Some(n as u64),
            None => None,
        }
    }

    /// UNIX seconds of the end of the period of this kind that contains
    /// `timestamp`; `None` for all time.
    pub fn end_period(&self, timestamp: Timestamp) -> (res: Option<UnixSeconds>)
        ensures
            opt_int(res) == self.spec_end_period(timestamp),
    {
        let (y, m, _d) = utc_date(timestamp);
        match self {
            TimePeriod::Day => next_day_start(timestamp),
            TimePeriod::Week => {
                let (iso_year, week) = utc_iso_week(timestamp);
                iso_monday_start(iso_year, week + 1)
            },
            TimePeriod::Month => {
                if m == 12 {
                    utc_midnight(y + 1, 1, 1)
                } else {
                    utc_midnight(y, m + 1, 1)
                }
            },
            TimePeriod::Quarter => {
                let current_quarter = (m - 1) / 3 + 1;
                if current_quarter == 4 {
                    utc_midnight(y + 1, 1, 1)
                } else {
                    utc_midnight(y, current_quarter * 3 + 1, 1)
                }
            },
            TimePeriod::Year => utc_midnight(y + 1, 1, 1),
            TimePeriod::AllTime => None,
        }
    }

    /// UNIX seconds of the start of the period of this kind that contains
    /// `timestamp`; `None` for all time.
    pub fn start_period(&self, timestamp: Timestamp) -> (res: Option<UnixSeconds>)
        ensures
            opt_int(res) == self.spec_start_period(timestamp),
    {
        let (y, m, _d) = utc_date(timestamp);
        match self {
            TimePeriod::Day => day_start(timestamp),
            TimePeriod::Week => {
                let (iso_year, week) = utc_iso_week(timestamp);
                iso_monday_start(iso_year, week)
            },
            TimePeriod::Month => utc_midnight(y, m, 1),
            TimePeriod::Quarter => {
                let current_quarter = (m - 1) / 3 + 1;
                utc_midnight(y, current_quarter * 3 - 2, 1)
            },
            TimePeriod::Year => utc_midnight(y, 1, 1),
            TimePeriod::AllTime => None,
        }
    }
}

/// `DDMMYYYY` of a date.
pub fn day_string_of(year: u32, month: u32, day: u32) -> (res: TimePeriodString)
    ensures
        res@ == day_string((year as int, month as int, day as int)),
{
    let mut s = String::new();
    push_padded(&mut s, day as u64, 2);
    push_padded(&mut s, month as u64, 2);
    push_padded(&mut s, year as u64, 4);
    assert(s@ =~= day_string((year as int, month as int, day as int)));
    s
}

/// `<year>W<week>`.
pub fn week_string_of(year: u32, week: u32) -> (res: TimePeriodString)
    ensures
        res@ == week_string(year as int, week as int),
{
    let mut s = String::new();
    push_decimal(&mut s, year as u64);
    push_str(&mut s, "W");
    push_decimal(&mut s, week as u64);
    proof {
        reveal_strlit("W");
    }
    assert(s@ =~= week_string(year as int, week as int));
    s
}

/// `<year>Q<quarter>` of a month of a year.
pub fn quarter_string_of(year: u32, month: u32) -> (res: TimePeriodString)
    requires
        month >= 1,
    ensures
        res@ == quarter_string((year as int, month as int, 1)),
{
    let quarter = (month - 1) / 3 + 1;
    let mut s = String::new();
    push_decimal(&mut s, year as u64);
    push_str(&mut s, "Q");
    push_decimal(&mut s, quarter as u64);
    proof {
        reveal_strlit("Q");
    }
    assert(s@ =~= quarter_string((year as int, month as int, 1)));
    s
}

/// `MMYYYY` of a month of a year.
pub fn month_string_of(year: u32, month: u32) -> (res: TimePeriodString)
    ensures
        res@ == month_string((year as int, month as int, 1)),
{
    let mut s = String::new();
    push_padded(&mut s, month as u64, 2);
    push_padded(&mut s, year as u64, 4);
    assert(s@ =~= month_string((year as int, month as int, 1)));
    s
}

/// `DDMMYYYY` of the UTC date of `timestamp`.
pub fn timestamp_to_day_string(timestamp: Timestamp) -> (res: TimePeriodString)
    ensures
        res@ == day_string(utc_date_of(timestamp)),
{
    let (y, m, d) = utc_date(timestamp);
    day_string_of(y as u32, m, d)
}

/// `<year>W<ISO week>` of `timestamp`; the year is the calendar year.
pub fn timestamp_to_week_string(timestamp: Timestamp) -> (res: TimePeriodString)
    ensures
        res@ == week_string(utc_date_of(timestamp).0, iso_week_of(timestamp).1),
{
    let (y, _m, _d) = utc_date(timestamp);
    let (_iso_year, week) = utc_iso_week(timestamp);
    week_string_of(y as u32, week)
}

/// `<year>Q<quarter>` of `timestamp`.
pub fn timestamp_to_quarter_string(timestamp: Timestamp) -> (res: TimePeriodString)
    ensures
        res@ == quarter_string(utc_date_of(timestamp)),
{
    let (y, m, _d) = utc_date(timestamp);
    quarter_string_of(y as u32, m)
}

/// `MMYYYY` of the UTC date of `timestamp`.
pub fn timestamp_to_month_string(timestamp: Timestamp) -> (res: TimePeriodString)
    ensures
        res@ == month_string(utc_date_of(timestamp)),
{
    let (y, m, _d) = utc_date(timestamp);
    month_string_of(y as u32, m)
}

/// A day ends where the next one begins: the end of the day holding `t`
/// comes after `t`, is the start of the day holding it, and the instant
/// just before it lies in the day of `t`, which starts no later than `t`.
/// Left out are the instants of the last day that `i64` nanoseconds reach,
/// whose end has no such nanoseconds.
pub proof fn law_day_ends_where_next_begins(t: u64)
    requires
        t as int + SECONDS_PER_DAY as int * NANOS_PER_SECOND as int <= i64::MAX,
    ensures
        TimePeriod::Day.spec_start_period(t) matches Some(s) && s * NANOS_PER_SECOND <= t,
        TimePeriod::Day.spec_end_period(t) matches Some(e) && {
            &&& t < e * NANOS_PER_SECOND
            &&& TimePeriod::Day.spec_start_period((e * NANOS_PER_SECOND) as u64) == Some(e)
            &&& TimePeriod::Day.spec_start_period((e * NANOS_PER_SECOND - 1) as u64)
                == TimePeriod::Day.spec_start_period(t)
        },
{
    let n = t as int;
    assert((t as i64) as int == n);
    let sec = n / 1_000_000_000;
    let d = sec / 86_400;
    let s = d * 86_400;
    let e = s + 86_400;
    assert(0 <= n);
    assert(sec * 1_000_000_000 <= n < (sec + 1) * 1_000_000_000) by (nonlinear_arith)
        requires
            sec == n / 1_000_000_000,
            n >= 0,
    ;
    assert(s <= sec < e) by (nonlinear_arith)
        requires
            d == sec / 86_400,
            s == d * 86_400,
            e == s + 86_400,
            sec >= 0,
    ;
    assert(s * 1_000_000_000 <= n) by (nonlinear_arith)
        requires
            s <= sec,
            sec * 1_000_000_000 <= n,
            s >= 0,
    ;
    assert(n < e * 1_000_000_000) by (nonlinear_arith)
        requires
            n < (sec + 1) * 1_000_000_000,
            sec + 1 <= e,
    ;
    let ne = e * 1_000_000_000;
    assert(ne <= n + 86_400_000_000_000) by (nonlinear_arith)
        requires
            e == s + 86_400,
            s * 1_000_000_000 <= n,
            ne == e * 1_000_000_000,
    ;
    assert(((ne as u64) as i64) as int == ne);
    assert(((ne - 1) as u64) as i64 as int == ne - 1);
    assert(ne / 1_000_000_000 == e) by (nonlinear_arith)
        requires
            ne == e * 1_000_000_000,
    ;
    assert(e / 86_400 * 86_400 == e) by (nonlinear_arith)
        requires
            e == (d + 1) * 86_400,
    ;
    assert((ne - 1) / 1_000_000_000 == e - 1) by (nonlinear_arith)
        requires
            ne == e * 1_000_000_000,
    ;
    assert((e - 1) / 86_400 == d) by (nonlinear_arith)
        requires
            e == (d + 1) * 86_400,
    ;
}

/// Months fall into quarters three by three: a date whose month lies between
/// `3q - 2` and `3q` is in quarter `q`, so January to March make up `Q1`,
/// April to June `Q2`, July to September `Q3` and October to December `Q4`.
pub proof fn law_quarter_identifier(y: int, m: int, d: int, q: int)
    requires
        1 <= q <= 4,
        3 * q - 2 <= m <= 3 * q,
    ensures
        quarter_string((y, m, d)) == decimal(y as nat) + seq!['Q'] + decimal(q as nat),
{
    assert(quarter_of_month(m) == q);
}

/// The quarter of a timestamp is one period: for the quarter `q` whose
/// months hold the timestamp's month, the identifier names `q`, the period
/// starts at midnight of the first day of month `3q - 2` and ends at
/// midnight of the first day of the next quarter (January of the next year
/// after `Q4`).
pub proof fn law_quarter_of_timestamp(t: u64, q: int)
    requires
        1 <= q <= 4,
    ensures
        ({
            let (y, m, d) = utc_date_of(t);
            3 * q - 2 <= m <= 3 * q ==> {
                &&& TimePeriod::Quarter.spec_time_string(t) == decimal(y as nat) + seq!['Q']
                    + decimal(q as nat)
                &&& TimePeriod::Quarter.spec_start_period(t) == utc_midnight_of(y, 3 * q - 2, 1)
                &&& TimePeriod::Quarter.spec_end_period(t) == if q == 4 {
                    utc_midnight_of(y + 1, 1, 1)
                } else {
                    utc_midnight_of(y, 3 * q + 1, 1)
                }
            }
        }),
{
    let (y, m, d) = utc_date_of(t);
    if 3 * q - 2 <= m <= 3 * q {
        law_quarter_identifier(y, m, d, q);
        assert(quarter_of_month(m) == q);
    }
}

} // verus!
