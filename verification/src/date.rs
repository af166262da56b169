//! Calendar days as plain numbers. Whether three numbers are a day of the
//! calendar, and on which day of the week it falls, is asked of chrono; this
//! module says what the answer is, carries the numbers and orders them.

use chrono::Datelike;
use vstd::prelude::*;

verus! {

/// The first year chrono has days for.
pub const MIN_YEAR: i32 = -262143;

/// The last year chrono has days for.
pub const MAX_YEAR: i32 = 262142;

/// Whether a year has a 29th of February: every fourth year has one, but of
/// the years that end a century only every fourth.
pub open spec fn is_leap_year(year: int) -> bool {
    year % 4 == 0 && (year % 100 != 0 || year % 400 == 0)
}

/// How many days a month of a year has.
pub open spec fn days_in_month(year: int, month: int) -> int {
    if month == 2 {
        if is_leap_year(year) {
            29
        } else {
            28
        }
    } else if month == 4 || month == 6 || month == 9 || month == 11 {
        30
    } else {
        31
    }
}

/// Whether `year`-`month`-`day` is a day of the calendar: a day that its
/// month has, in a year chrono has days for.
pub open spec fn is_calendar_date(year: i32, month: u32, day: u32) -> bool {
    &&& MIN_YEAR <= year <= MAX_YEAR
    &&& 1 <= month <= 12
    &&& 1 <= day <= days_in_month(year as int, month as int)
}

/// How many days of a year lie before its month `month`.
pub open spec fn days_before_month(year: int, month: int) -> int
    decreases month,
{
    if month <= 1 {
        0
    } else {
        days_before_month(year, month - 1) + days_in_month(year, month - 1)
    }
}

/// How many leap years lie between the year 1 and `year`, the latter left
/// out; below zero for a year before the year 1.
pub open spec fn leap_years_before(year: int) -> int {
    (year - 1) / 4 - (year - 1) / 100 + (year - 1) / 400
}

/// The number of a day, counted from the first of January of the year 1,
/// which has the number 1 and is a Monday.
pub open spec fn day_number(year: int, month: int, day: int) -> int {
    365 * (year - 1) + leap_years_before(year) + days_before_month(year, month) + day
}

/// How many days after Monday the day `year`-`month`-`day` falls.
pub open spec fn days_from_monday(year: i32, month: u32, day: u32) -> nat {
    ((day_number(year as int, month as int, day as int) - 1) % 7) as nat
}

/// `chrono::NaiveDate::from_ymd_opt`, reduced to whether it finds a date.
/// Assumed, as chrono documents it: it finds the days of the Gregorian
/// calendar, carried on before its introduction and with a year 0, from the
/// first day of `MIN_YEAR` to the last of `MAX_YEAR`.
#[verifier::external_body]
fn calendar_date_exists(year: i32, month: u32, day: u32) -> (found: bool)
    ensures
        found == is_calendar_date(year, month, day),
{
    chrono::NaiveDate::from_ymd_opt(year, month, day).is_some()
}

/// `chrono::Datelike::weekday` followed by `Weekday::num_days_from_monday`.
/// Assumed, as chrono documents it: the day of the week in the Gregorian
/// calendar, in which the first of January of the year 1 is a Monday; 0
/// stands for a Monday and 6 for a Sunday.
#[verifier::external_body]
fn chrono_days_from_monday(year: i32, month: u32, day: u32) -> (offset: usize)
    requires
        is_calendar_date(year, month, day),
    ensures
        offset == days_from_monday(year, month, day),
        offset < 7,
{
    let date = chrono::NaiveDate::from_ymd_opt(year, month, day).unwrap();
    date.weekday().num_days_from_monday() as usize
}

/// `date_range::DateRange::new` on two calendar days.
/// Assumed: it refuses exactly the ranges whose first day lies after the
/// last one, where chrono orders days by year, then month, then day.
#[verifier::external_body]
fn date_range_accepts(since: &Date, until: &Date) -> (accepted: bool)
    ensures
        accepted == !since.is_later_than(*until),
{
    let first = chrono::NaiveDate::from_ymd_opt(since.year, since.month, since.day).unwrap();
    let last = chrono::NaiveDate::from_ymd_opt(until.year, until.month, until.day).unwrap();
    date_range::DateRange::new(first, last).is_ok()
}

/// A day of the calendar.
#[derive(Clone, Copy, Debug, PartialEq, Eq, Structural)]
pub struct Date {
    year: i32,
    month: u32,
    day: u32,
}

impl Date {
    #[verifier::type_invariant]
    closed spec fn exists_in_calendar(self) -> bool {
        is_calendar_date(self.year, self.month, self.day)
    }

    pub closed spec fn spec_year(&self) -> i32 {
        self.year
    }

    pub closed spec fn spec_month(&self) -> u32 {
        self.month
    }

    pub closed spec fn spec_day(&self) -> u32 {
        self.day
    }

    /// Chronological order: by year, then by month, then by day.
    pub open spec fn is_later_than(self, other: Date) -> bool {
        ||| self.spec_year() > other.spec_year()
        ||| self.spec_year() == other.spec_year() && self.spec_month() > other.spec_month()
        ||| self.spec_year() == other.spec_year() && self.spec_month() == other.spec_month()
            && self.spec_day() > other.spec_day()
    }

    /// The day `year`-`month`-`day`, if the calendar has it.
    pub fn from_ymd_opt(year: i32, month: u32, day: u32) -> (date: Option<Date>)
        ensures
            date is Some <==> is_calendar_date(year, month, day),
            date matches Some(d) ==> d.spec_year() == year && d.spec_month() == month
                && d.spec_day() == day,
    {
        if calendar_date_exists(year, month, day) {
            Some(Date { year, month, day })
        } else {
            None
        }
    }

    #[verifier::when_used_as_spec(spec_year)]
    pub fn year(&self) -> (year: i32)
        ensures
            year == self.spec_year(),
            MIN_YEAR <= year <= MAX_YEAR,
    {
        proof {
            use_type_invariant(self);
        }
        self.year
    }

    #[verifier::when_used_as_spec(spec_month)]
    pub fn month(&self) -> (month: u32)
        ensures
            month == self.spec_month(),
            1 <= month <= 12,
    {
        proof {
            use_type_invariant(self);
        }
        self.month
    }

    #[verifier::when_used_as_spec(spec_day)]
    pub fn day(&self) -> (day: u32)
        ensures
            day == self.spec_day(),
            is_calendar_date(self.spec_year(), self.spec_month(), day),
    {
        proof {
            use_type_invariant(self);
        }
        self.day
    }

    /// Whether this day comes after `other`.
    pub fn after(&self, other: &Date) -> (later: bool)
        ensures
            later == self.is_later_than(*other),
    {
        self.year > other.year || (self.year == other.year && (self.month > other.month || (
        self.month == other.month && self.day > other.day)))
    }

    /// How many days after Monday this day falls: 0 on a Monday, 6 on a
    /// Sunday.
    pub fn weekday_offset(&self) -> (offset: usize)
        ensures
            offset == days_from_monday(self.spec_year(), self.spec_month(), self.spec_day()),
            offset < 7,
    {
        proof {
            use_type_invariant(self);
        }
        chrono_days_from_monday(self.year, self.month, self.day)
    }

    /// Whether a range from this day to `until` is one that can be asked
    /// for: its first day must not lie after its last.
    pub fn opens_range_to(&self, until: &Date) -> (accepted: bool)
        ensures
            accepted == !self.is_later_than(*until),
    {
        date_range_accepts(self, until)
    }
}

} // verus!
