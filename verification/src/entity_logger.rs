//! Calendar time for the lines of a log.

use crate::decimal::{padded_decimal, push_padded};
use vstd::prelude::*;

verus! {

/// Seconds of a day.
pub const SECONDS_PER_DAY: i64 = 86400;

/// Hours that the log's clock is behind UTC.
pub const UTC_OFFSET_HOURS: i32 = 3;

/// A moment as date and time of day, in UTC.
#[derive(Clone, Copy, Debug)]
pub struct DateTime {
    /// Seconds after the minute - [0, 59]
    pub sec: i32,
    /// Minutes after the hour - [0, 59]
    pub min: i32,
    /// Hours after midnight - [0, 23]
    pub hour: i32,
    /// Day of the month - [1, 31]
    pub day: i32,
    /// Month of the year - [1, 12]
    pub month: i32,
    /// Years
    pub year: i32,
}

/// A day of the calendar.
#[derive(Clone, Copy, Debug)]
pub struct Date {
    /// Day of the month - [1, 31]
    pub day: i32,
    /// Month of the year - [1, 12]
    pub month: i32,
    /// Years
    pub year: i32,
}

/// Whether a year of the Gregorian calendar has a 29th of February.
pub open spec fn is_leap_year(year: int) -> bool {
    year % 4 == 0 && (year % 100 != 0 || year % 400 == 0)
}

/// The number of days of a year.
pub open spec fn days_in_year(year: int) -> int {
    if is_leap_year(year) {
        366
    } else {
        365
    }
}

/// The number of days of a month, January being month 1.
pub open spec fn days_in_month(year: int, month: int) -> int {
    if month == 2 {
        if is_leap_year(year) {
            29
        } else {
            28
        }
    } else if month == 4 || month == 6 || month == 9 || month == 11 {
        30
    } else {
        31
    }
}

/// The number of days from the first of January 1970 to the first of
/// January of `year`.
pub open spec fn days_before_year(year: int) -> int
    decreases year - 1970,
{
    if year <= 1970 {
        0
    } else {
        days_before_year(year - 1) + days_in_year(year - 1)
    }
}

/// The number of days from the first of January of `year` to the first of
/// `month` of that year.
pub open spec fn days_before_month(year: int, month: int) -> int
    decreases month,
{
    if month <= 1 {
        0
    } else {
        days_before_month(year, month - 1) + days_in_month(year, month - 1)
    }
}

impl DateTime {
    /// Whether the fields name a moment of the calendar since 1970.
    pub open spec fn is_civil(self) -> bool {
        &&& 1970 <= self.year
        &&& 1 <= self.month <= 12
        &&& 1 <= self.day <= days_in_month(self.year as int, self.month as int)
        &&& 0 <= self.hour < 24
        &&& 0 <= self.min < 60
        &&& 0 <= self.sec < 60
    }

    /// The seconds from the start of 1970 to the moment.
    pub open spec fn epoch_seconds(self) -> int {
        (days_before_year(self.year as int) + days_before_month(
            self.year as int,
            self.month as int,
        ) + self.day - 1) * 86400 + self.hour * 3600 + self.min * 60 + self.sec
    }

    /// The line that [`DateTime::to_string`] writes: date and time of day,
    /// the hour moved back by [`UTC_OFFSET_HOURS`].
    pub open spec fn text(self) -> Seq<char> {
        padded_decimal(self.year as int, 4) + seq!['-'] + padded_decimal(self.month as int, 2)
            + seq!['-'] + padded_decimal(self.day as int, 2) + seq![' '] + padded_decimal(
            self.hour - UTC_OFFSET_HOURS,
            2,
        ) + seq![':'] + padded_decimal(self.min as int, 2) + seq![':'] + padded_decimal(
            self.sec as int,
            2,
        )
    }

    /// A date and time with every field zero.
    pub fn new() -> (tm: Self)
        ensures
            tm.sec == 0,
            tm.min == 0,
            tm.hour == 0,
            tm.day == 0,
            tm.month == 0,
            tm.year == 0,
    {
        DateTime { sec: 0, min: 0, hour: 0, day: 0, month: 0, year: 0 }
    }

    /// Writes the moment as `YYYY-MM-DD hh:mm:ss`.
    pub fn to_string(&self) -> (line: String)
        ensures
            line@ == self.text(),
    {
        let mut line: String = String::new();
        push_padded(&mut line, self.year as i64, 4);
        line.push('-');
        push_padded(&mut line, self.month as i64, 2);
        line.push('-');
        push_padded(&mut line, self.day as i64, 2);
        line.push(' ');
        push_padded(&mut line, self.hour as i64 - UTC_OFFSET_HOURS as i64, 2);
        line.push(':');
        push_padded(&mut line, self.min as i64, 2);
        line.push(':');
        push_padded(&mut line, self.sec as i64, 2);
        assert(line@ =~= self.text());
        line
    }
}

impl Default for DateTime {
    fn default() -> (tm: Self)
        ensures
            tm.sec == 0,
            tm.min == 0,
            tm.hour == 0,
            tm.day == 0,
            tm.month == 0,
            tm.year == 0,
    {
        DateTime::new()
    }
}

impl Date {
    /// The line that [`Date::to_string`] writes.
    pub open spec fn text(self) -> Seq<char> {
        padded_decimal(self.year as int, 4) + seq!['-'] + padded_decimal(self.month as int, 2)
            + seq!['-'] + padded_decimal(self.day as int, 2) + seq![' ', 'U', 'T', 'C']
    }

    /// Writes the day as `YYYY-MM-DD UTC`.
    pub fn to_string(&self) -> (line: String)
        ensures
            line@ == self.text(),
    {
        let mut line: String = String::new();
        push_padded(&mut line, self.year as i64, 4);
        line.push('-');
        push_padded(&mut line, self.month as i64, 2);
        line.push('-');
        push_padded(&mut line, self.day as i64, 2);
        line.push(' ');
        line.push('U');
        line.push('T');
        line.push('C');
        assert(line@ =~= self.text());
        line
    }
}

/// Tells whether a year has a 29th of February.
pub fn leapyear(year: i64) -> (leap: bool)
    requires
        year >= 0,
    ensures
        leap == is_leap_year(year as int),
{
    year % 4 == 0 && (year % 100 != 0 || year % 400 == 0)
}

/// The number of days of a month, January being month 1.
pub fn month_length(leap: bool, month: i64) -> (days: i64)
    requires
        1 <= month <= 12,
    ensures
        forall|year: int| is_leap_year(year) == leap ==> days == days_in_month(year, month as int),
        28 <= days <= 31,
{
    if month == 2 {
        if leap {
            29
        } else {
            28
        }
    } else if month == 4 || month == 6 || month == 9 || month == 11 {
        30
    } else {
        31
    }
}

/// The days before a year are at least 365 for each year since 1970.
pub proof fn lemma_days_before_year_bound(year: int)
    requires
        1970 <= year,
    ensures
        365 * (year - 1970) <= days_before_year(year),
    decreases year - 1970,
{
    if year > 1970 {
        lemma_days_before_year_bound(year - 1);
    }
}

/// The twelve months of a year make up the year.
pub proof fn lemma_months_make_a_year(year: int)
    ensures
        days_before_month(year, 13) == days_in_year(year),
{
    reveal_with_fuel(days_before_month, 14);
}

/// A later year starts at least a whole year after an earlier one.
pub proof fn lemma_days_before_year_increases(earlier: int, later: int)
    requires
        1970 <= earlier < later,
    ensures
        days_before_year(earlier) + days_in_year(earlier) <= days_before_year(later),
    decreases later - earlier,
{
    if earlier + 1 < later {
        lemma_days_before_year_increases(earlier, later - 1);
    }
}

/// A moment of the calendar is known by its seconds since the start of
/// 1970: two that agree in them agree in every field.
pub proof fn lemma_civil_time_is_unique(a: DateTime, b: DateTime)
    requires
        a.is_civil(),
        b.is_civil(),
        a.epoch_seconds() == b.epoch_seconds(),
    ensures
        a == b,
{
    let day_a = days_before_year(a.year as int) + days_before_month(a.year as int, a.month as int)
        + a.day - 1;
    let day_b = days_before_year(b.year as int) + days_before_month(b.year as int, b.month as int)
        + b.day - 1;
    let clock_a = a.hour * 3600 + a.min * 60 + a.sec;
    let clock_b = b.hour * 3600 + b.min * 60 + b.sec;
    assert(0 <= clock_a < 86400 && 0 <= clock_b < 86400);
    assert(day_a == day_b && clock_a == clock_b);
    assert(a.hour == b.hour && a.min == b.min && a.sec == b.sec);
    reveal_with_fuel(days_before_month, 14);
    lemma_months_make_a_year(a.year as int);
    lemma_months_make_a_year(b.year as int);
    assert(0 <= days_before_month(a.year as int, a.month as int) + a.day - 1 < days_in_year(
        a.year as int,
    ));
    assert(0 <= days_before_month(b.year as int, b.month as int) + b.day - 1 < days_in_year(
        b.year as int,
    ));
    if a.year < b.year {
        lemma_days_before_year_increases(a.year as int, b.year as int);
    }
    if b.year < a.year {
        lemma_days_before_year_increases(b.year as int, a.year as int);
    }
    assert(a.year == b.year);
    assert(a.month == b.month);
}

/// Converts seconds since the start of 1970 into date and time of day.
pub fn seconds_to_datetime(ts: i64, tm: &mut DateTime)
    requires
        0 <= ts,
        ts / 86400 / 365 + 1970 <= i32::MAX,
    ensures
        final(tm).is_civil(),
        final(tm).epoch_seconds() == ts,
{
    let dayclock: i64 = ts % SECONDS_PER_DAY;
    let days: i64 = ts / SECONDS_PER_DAY;
    let mut dayno: i64 = days;
    let mut year: i64 = 1970;
    loop
        invariant
            1970 <= year,
            0 <= dayno,
            days_before_year(year as int) + dayno == days,
            days / 365 + 1970 <= i32::MAX,
        ensures
            1970 <= year <= i32::MAX,
            0 <= dayno < days_in_year(year as int),
            days_before_year(year as int) + dayno == days,
        decreases dayno,
    {
        proof {
            lemma_days_before_year_bound(year as int);
        }
        let yearsize: i64 = if leapyear(year) {
            366
        } else {
            365
        };
        if dayno >= yearsize {
            dayno = dayno - yearsize;
            year = year + 1;
        } else {
            break ;
        }
    }
    let leap: bool = leapyear(year);
    let ghost day_of_year = dayno;
    let mut month: i64 = 1;
    while dayno >= month_length(leap, month)
        invariant
            1 <= month <= 12,
            0 <= dayno,
            leap == is_leap_year(year as int),
            day_of_year < days_in_year(year as int),
            days_before_month(year as int, month as int) + dayno == day_of_year,
        decreases 12 - month,
    {
        proof {
            lemma_months_make_a_year(year as int);
            reveal_with_fuel(days_before_month, 2);
        }
        dayno = dayno - month_length(leap, month);
        month = month + 1;
    }
    tm.sec = (dayclock % 60) as i32;
    tm.min = ((dayclock % 3600) / 60) as i32;
    tm.hour = (dayclock / 3600) as i32;
    tm.year = year as i32;
    tm.month = month as i32;
    tm.day = (dayno + 1) as i32;
}

} // verus!
