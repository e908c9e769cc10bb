//! Calendar dates and points in time, as plain numbers.

use vstd::prelude::*;

verus! {

/// The first year that a `Date` can hold.
pub const MIN_YEAR: i32 = -262_143;

/// The last year that a `Date` can hold.
pub const MAX_YEAR: i32 = 262_142;

/// Whether `year` has 366 days in the proleptic Gregorian calendar.
pub open spec fn is_leap_year(year: int) -> bool {
    year % 4 == 0 && (year % 100 != 0 || year % 400 == 0)
}

/// The number of days of `month` in `year`, for a month from 1 to 12.
pub open spec fn days_in_month(year: int, month: int) -> int {
    if month == 2 {
        if is_leap_year(year) {
            29
        } else {
            28
        }
    } else if month == 4 || month == 6 || month == 9 || month == 11 {
        30
    } else {
        31
    }
}

/// Whether the three numbers name a day of the proleptic Gregorian calendar
/// in a year that a `Date` can hold.
pub open spec fn is_calendar_date(year: int, month: int, day: int) -> bool {
    &&& MIN_YEAR <= year <= MAX_YEAR
    &&& 1 <= month <= 12
    &&& 1 <= day <= days_in_month(year, month)
}

/// Seconds from 1970-01-01 00:00:00 UTC to 00:00:00 UTC of the given day,
/// negative for a day before 1970.
pub uninterp spec fn unix_midnight(year: int, month: int, day: int) -> i64;

/// `chrono::NaiveDate::from_ymd_opt`, `NaiveDate::and_time` with midnight,
/// `NaiveDateTime::and_utc` and `DateTime::timestamp`: the UNIX timestamp of
/// midnight UTC of a calendar date. `from_ymd_opt` gives a date for every
/// input that `is_calendar_date` admits.
#[verifier::external_body]
fn chrono_midnight(year: i32, month: u32, day: u32) -> (seconds: i64)
    requires
        is_calendar_date(year as int, month as int, day as int),
    ensures
        seconds == unix_midnight(year as int, month as int, day as int),
{
    let date = chrono::NaiveDate::from_ymd_opt(year, month, day).expect("a calendar date");
    date.and_time(chrono::NaiveTime::MIN).and_utc().timestamp()
}

/// A day of the proleptic Gregorian calendar, without a time zone.
#[derive(Clone, Copy, PartialEq, Eq, Structural, Debug)]
pub struct Date {
    year: i32,
    month: u32,
    day: u32,
}

impl View for Date {
    type V = (int, int, int);

    /// Year, month and day.
    closed spec fn view(&self) -> (int, int, int) {
        (self.year as int, self.month as int, self.day as int)
    }
}

/// Whether `year` is a leap year.
fn leap_year(year: i32) -> (leap: bool)
    ensures
        leap == is_leap_year(year as int),
{
    year % 4 == 0 && (year % 100 != 0 || year % 400 == 0)
}

impl Date {
    #[verifier::type_invariant]
    spec fn is_valid(self) -> bool {
        is_calendar_date(self.year as int, self.month as int, self.day as int)
    }

    /// The date with the given year, month and day, if there is such a day.
    pub fn from_ymd_opt(year: i32, month: u32, day: u32) -> (date: Option<Date>)
        ensures
            date is Some <==> is_calendar_date(year as int, month as int, day as int),
            date matches Some(d) ==> d@ == (year as int, month as int, day as int),
    {
        if year < MIN_YEAR || year > MAX_YEAR || month < 1 || month > 12 || day < 1 {
            return None;
        }
        let last: u32 = if month == 2 {
            if leap_year(year) {
                29
            } else {
                28
            }
        } else if month == 4 || month == 6 || month == 9 || month == 11 {
            30
        } else {
            31
        };
        if day > last {
            return None;
        }
        Some(Date { year, month, day })
    }

    /// The date with the given year, month and day.
    pub fn from_ymd(year: i32, month: u32, day: u32) -> (date: Date)
        requires
            is_calendar_date(year as int, month as int, day as int),
        ensures
            date@ == (year as int, month as int, day as int),
    {
        Date { year, month, day }
    }

    /// The year of the date.
    pub fn year(&self) -> (year: i32)
        ensures
            year == self@.0,
    {
        self.year
    }

    /// The month of the date, from 1 to 12.
    pub fn month(&self) -> (month: u32)
        ensures
            month == self@.1,
    {
        self.month
    }

    /// The day of the month, from 1.
    pub fn day(&self) -> (day: u32)
        ensures
            day == self@.2,
    {
        self.day
    }

    /// Seconds from the start of 1970 to midnight UTC of this date.
    pub fn midnight_timestamp(&self) -> (seconds: i64)
        ensures
            seconds == unix_midnight(self@.0, self@.1, self@.2),
    {
        proof {
            use_type_invariant(self);
        }
        chrono_midnight(self.year, self.month, self.day)
    }
}

/// A point in time: whole seconds since 1970-01-01 00:00:00 UTC, leap seconds
/// not counted, and the nanoseconds since the last whole second.
#[derive(Clone, Copy, PartialEq, Eq, Structural, PartialOrd, Ord, Debug)]
pub struct UtcDateTime {
    pub seconds: i64,
    pub nanos: u32,
}

} // verus!
