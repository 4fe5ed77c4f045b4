//! Civil dates of the proleptic Gregorian calendar: their validity, their
//! place in the count of days, their weekday, and the step back by a week.

use crate::month::Month;
use crate::weekday::Weekday;
use chrono::Datelike;
use vstd::prelude::*;

verus! {

/// The last year that the calendar covers; its first year is year 1.
pub const MAX_YEAR: i32 = 262143;

/// The length of a week in seconds.
pub const WEEK_SECONDS: u32 = 604800;

/// The length of a day in seconds.
pub const DAY_SECONDS: u32 = 86400;

/// Whether February of `year` has 29 days.
pub open spec fn is_leap_year(year: int) -> bool {
    year % 4 == 0 && (year % 100 != 0 || year % 400 == 0)
}

/// The number of days of a month; 31 for a month outside 1..=12.
pub open spec fn days_in_month(year: int, month: int) -> int {
    if month == 2 {
        if is_leap_year(year) {
            29
        } else {
            28
        }
    } else if month == 4 || month == 6 || month == 9 || month == 11 {
        30
    } else {
        31
    }
}

/// The number of days of `year` that lie before the first day of `month`.
pub open spec fn days_before_month(year: int, month: int) -> int
    decreases month,
{
    if month <= 1 {
        0
    } else {
        days_before_month(year, month - 1) + days_in_month(year, month - 1)
    }
}

/// The number of days of the calendar that lie before the first day of
/// `year`: none before year 1.
pub open spec fn days_before_year(year: int) -> int {
    let past = year - 1;
    365 * past + past / 4 - past / 100 + past / 400
}

/// A year, a month and a day as plain numbers: what a [`Date`] stands for.
pub struct CivilDate {
    pub year: int,
    pub month: int,
    pub day: int,
}

impl CivilDate {
    /// The month is one of the twelve and the day is one of that month.
    pub open spec fn in_month(self) -> bool {
        &&& 1 <= self.month <= 12
        &&& 1 <= self.day <= days_in_month(self.year, self.month)
    }

    /// The triple is a date of the calendar.
    pub open spec fn valid(self) -> bool {
        &&& 1 <= self.year <= MAX_YEAR
        &&& self.in_month()
    }

    /// The date's place in the count of days, in which the first of January
    /// of year 1 is day 1.
    pub open spec fn day_number(self) -> int {
        days_before_year(self.year) + days_before_month(self.year, self.month) + self.day
    }

    /// The date's place in its year, from 1 for the first of January.
    pub open spec fn day_of_year(self) -> int {
        days_before_month(self.year, self.month) + self.day
    }

    /// The date's day of the week: day 1 of the count is a Monday.
    pub open spec fn weekday(self) -> Weekday {
        Weekday::after_monday(self.day_number() - 1)
    }

    /// The date seven days before this one.
    pub open spec fn week_earlier(self) -> CivilDate {
        if self.day > 7 {
            CivilDate { year: self.year, month: self.month, day: self.day - 7 }
        } else if self.month > 1 {
            CivilDate {
                year: self.year,
                month: self.month - 1,
                day: days_in_month(self.year, self.month - 1) + self.day - 7,
            }
        } else {
            CivilDate { year: self.year - 1, month: 12, day: self.day + 24 }
        }
    }
}

/// The civil date with these numbers.
pub open spec fn civil(year: int, month: int, day: int) -> CivilDate {
    CivilDate { year, month, day }
}

/// Why the calendar refused a date.
#[derive(Clone, Copy, Debug, PartialEq, Eq, Structural)]
pub enum CalendarError {
    /// The year, month and day asked for name no date of the calendar.
    InvalidDate,
    /// The date asked for lies before the calendar's first day.
    UnderflowDate,
}

/// A date of the calendar. Every value is a valid date.
#[derive(Clone, Copy, Debug, PartialEq, Eq, Structural)]
pub struct Date {
    year: i32,
    month: u32,
    day: u32,
}

impl View for Date {
    type V = CivilDate;

    closed spec fn view(&self) -> CivilDate {
        civil(self.year as int, self.month as int, self.day as int)
    }
}

impl Date {
    /// What holds of every date: it is a date of the calendar.
    #[verifier::type_invariant]
    pub open spec fn wf(self) -> bool {
        self@.valid()
    }

    /// The date's year.
    pub fn year(&self) -> (year: i32)
        ensures
            year == self@.year,
    {
        self.year
    }

    /// The number of the date's month, from 1 for January.
    pub fn month(&self) -> (month: u32)
        ensures
            month == self@.month,
            1 <= month <= 12,
    {
        proof {
            use_type_invariant(self);
        }
        self.month
    }

    /// The date's day of the month.
    pub fn day(&self) -> (day: u32)
        ensures
            day == self@.day,
            1 <= day <= 31,
    {
        proof {
            use_type_invariant(self);
        }
        self.day
    }
}

/// Whether February of `year` has 29 days.
pub fn year_is_leap(year: i32) -> (leap: bool)
    ensures
        leap == is_leap_year(year as int),
{
    let size: i64 = if year < 0 {
        -(year as i64)
    } else {
        year as i64
    };
    size % 4 == 0 && (size % 100 != 0 || size % 400 == 0)
}

/// The number of days that `month` has in `year`.
pub fn month_length(year: i32, month: Month) -> (days: u32)
    ensures
        days == days_in_month(year as int, month.ordinal() as int),
        28 <= days <= 31,
{
    match month {
        Month::February => if year_is_leap(year) {
            29
        } else {
            28
        },
        Month::April | Month::June | Month::September | Month::November => 30,
        _ => 31,
    }
}

/// Makes the date with the given year, month number and day, where the
/// calendar has one.
pub fn make_date(year: i32, month_ord: u32, day: u32) -> (made: Result<Date, CalendarError>)
    ensures
        match made {
            Ok(date) => date@ == civil(year as int, month_ord as int, day as int) && date@.valid(),
            Err(error) => error == CalendarError::InvalidDate && !civil(
                year as int,
                month_ord as int,
                day as int,
            ).valid(),
        },
{
    if year < 1 || year > MAX_YEAR || month_ord < 1 || month_ord > 12 || day < 1 {
        return Err(CalendarError::InvalidDate);
    }
    if day > month_length(year, Month::from_num(month_ord)) {
        return Err(CalendarError::InvalidDate);
    }
    Ok(Date { year, month: month_ord, day })
}

/// The first year that `chrono` has dates for.
const CHRONO_FIRST_YEAR: i32 = -262144;

/// Asks `chrono` for a date's day of the week: `chrono::NaiveDate::from_ymd`
/// makes the date and `chrono::Datelike::weekday` reads its weekday.
///
/// Taken on trust: chrono's dates are those of the proleptic Gregorian
/// calendar, so the weekday it gives is the one that follows from the date's
/// place in the count of days, in which day 1 is a Monday.
#[verifier::external_body]
fn chrono_weekday(year: i32, month: u32, day: u32) -> (weekday: Weekday)
    requires
        civil(year as int, month as int, day as int).valid(),
    ensures
        weekday == civil(year as int, month as int, day as int).weekday(),
{
    match chrono::NaiveDate::from_ymd(year, month, day).weekday() {
        chrono::Weekday::Mon => Weekday::Monday,
        chrono::Weekday::Tue => Weekday::Tuesday,
        chrono::Weekday::Wed => Weekday::Wednesday,
        chrono::Weekday::Thu => Weekday::Thursday,
        chrono::Weekday::Fri => Weekday::Friday,
        chrono::Weekday::Sat => Weekday::Saturday,
        chrono::Weekday::Sun => Weekday::Sunday,
    }
}

/// Asks `chrono` for the date that lies a span of seconds before a date:
/// `time::Duration::from_std` makes the span, which it does for any number
/// of seconds that fits `u32`, and `chrono::NaiveDate::checked_sub_signed`
/// takes the whole days of the span from the date that
/// `chrono::NaiveDate::from_ymd` makes.
///
/// Taken on trust: what comes back is a date of the proleptic Gregorian
/// calendar whose place in the count of days is earlier by the number of
/// whole days in the span, and nothing comes back only where that place
/// lies before the first year that chrono has dates for.
#[verifier::external_body]
fn chrono_earlier(year: i32, month: u32, day: u32, seconds: u32) -> (earlier: Option<
    (i32, u32, u32),
>)
    requires
        civil(year as int, month as int, day as int).valid(),
    ensures
        ({
            let from = civil(year as int, month as int, day as int);
            let days = seconds as int / DAY_SECONDS as int;
            match earlier {
                Some((y, m, d)) => {
                    let found = civil(y as int, m as int, d as int);
                    found.in_month() && found.day_number() == from.day_number() - days
                },
                None => from.day_number() - days <= days_before_year(CHRONO_FIRST_YEAR as int),
            }
        }),
{
    let span = time::Duration::from_std(std::time::Duration::new(seconds.into(), 0)).ok()?;
    let found = chrono::NaiveDate::from_ymd(year, month, day).checked_sub_signed(span)?;
    Some((found.year(), found.month(), found.day()))
}

/// The day of the week on which a date falls.
pub fn weekday_of(date: Date) -> (weekday: Weekday)
    ensures
        weekday == date@.weekday(),
{
    proof {
        use_type_invariant(&date);
    }
    chrono_weekday(date.year, date.month, date.day)
}

/// The date seven days before `date`, where the calendar reaches that far
/// back.
pub fn minus_seven_days(date: Date) -> (stepped: Result<Date, CalendarError>)
    ensures
        match stepped {
            Ok(earlier) => {
                &&& date@.day_number() > 7
                &&& earlier@ == date@.week_earlier()
                &&& earlier@.day_number() == date@.day_number() - 7
                &&& earlier@.weekday() == date@.weekday()
            },
            Err(error) => error == CalendarError::UnderflowDate && date@.day_number() <= 7,
        },
{
    proof {
        use_type_invariant(&date);
        lemma_week_earlier(date@);
        lemma_day_number_in_year(date@);
        lemma_days_before_year_grows(CHRONO_FIRST_YEAR as int, 1);
    }
    match chrono_earlier(date.year, date.month, date.day, WEEK_SECONDS) {
        Some((year, month, day)) => {
            proof {
                let found = civil(year as int, month as int, day as int);
                lemma_day_number_injective(found, date@.week_earlier());
                lemma_day_number_in_year(found);
                if year < 1 {
                    lemma_days_before_year_grows(year + 1, 1);
                } else {
                    lemma_days_before_year_grows(1, year as int);
                }
            }
            if year >= 1 {
                Ok(Date { year, month, day })
            } else {
                Err(CalendarError::UnderflowDate)
            }
        },
        None => Err(CalendarError::UnderflowDate),
    }
}

/// The days that lie before each month of a year.
pub proof fn lemma_days_before_month(year: int)
    ensures
        days_before_month(year, 1) == 0,
        days_before_month(year, 2) == 31,
        days_before_month(year, 3) == 31 + days_in_month(year, 2),
        days_before_month(year, 4) == 62 + days_in_month(year, 2),
        days_before_month(year, 5) == 92 + days_in_month(year, 2),
        days_before_month(year, 6) == 123 + days_in_month(year, 2),
        days_before_month(year, 7) == 153 + days_in_month(year, 2),
        days_before_month(year, 8) == 184 + days_in_month(year, 2),
        days_before_month(year, 9) == 215 + days_in_month(year, 2),
        days_before_month(year, 10) == 245 + days_in_month(year, 2),
        days_before_month(year, 11) == 276 + days_in_month(year, 2),
        days_before_month(year, 12) == 306 + days_in_month(year, 2),
        days_before_month(year, 13) == 337 + days_in_month(year, 2),
{
    reveal_with_fuel(days_before_month, 14);
}

/// A year has 365 days, and one more where it is a leap year.
pub proof fn lemma_year_length(year: int)
    ensures
        days_before_year(year + 1) - days_before_year(year) == days_before_month(year, 13),
        days_before_month(year, 13) == if is_leap_year(year) {
            366int
        } else {
            365int
        },
{
    lemma_days_before_month(year);
}

/// Later years begin later in the count of days.
pub proof fn lemma_days_before_year_grows(earlier: int, later: int)
    requires
        earlier <= later,
    ensures
        days_before_year(later) - days_before_year(earlier) >= 365 * (later - earlier),
    decreases later - earlier,
{
    if earlier < later {
        lemma_days_before_year_grows(earlier, later - 1);
        lemma_year_length(later - 1);
    }
}

/// A date's day number lies within its year.
pub proof fn lemma_day_number_in_year(date: CivilDate)
    requires
        date.in_month(),
    ensures
        days_before_year(date.year) < date.day_number() <= days_before_year(date.year + 1),
        1 <= date.day_of_year() <= 366,
{
    lemma_days_before_month(date.year);
    lemma_year_length(date.year);
}

/// Two dates with one day number are one date.
pub proof fn lemma_day_number_injective(a: CivilDate, b: CivilDate)
    requires
        a.in_month(),
        b.in_month(),
        a.day_number() == b.day_number(),
    ensures
        a == b,
{
    lemma_day_number_in_year(a);
    lemma_day_number_in_year(b);
    if a.year < b.year {
        lemma_days_before_year_grows(a.year + 1, b.year);
    } else if b.year < a.year {
        lemma_days_before_year_grows(b.year + 1, a.year);
    } else {
        lemma_days_before_month(a.year);
    }
}

/// The date seven days before a date is a date, and its day number is
/// smaller by seven.
pub proof fn lemma_week_earlier(date: CivilDate)
    requires
        date.in_month(),
    ensures
        date.week_earlier().in_month(),
        date.week_earlier().day_number() == date.day_number() - 7,
{
    lemma_days_before_month(date.year);
    lemma_year_length(date.year - 1);
    lemma_days_before_month(date.year - 1);
}

/// The day a week before a date falls on the same day of the week as the
/// date.
pub proof fn lemma_week_earlier_same_weekday(date: CivilDate)
    requires
        date.in_month(),
    ensures
        date.week_earlier().weekday() == date.weekday(),
{
    lemma_week_earlier(date);
}

} // verus!
