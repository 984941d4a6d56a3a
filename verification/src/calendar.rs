//! Months of the Badí' year, valid dates, and the arithmetic that moves from
//! one month to the next.
use vstd::prelude::*;

use crate::badi_calls::{number_of_days, number_of_days_of};

verus! {

/// One of the nineteen months (1-based number) or the intercalary days of
/// Ayyám-i-Há, which fall between the eighteenth and the nineteenth month.
#[derive(Clone, Copy, Debug, PartialEq, Eq, Structural)]
pub enum BadiMonth {
    Month(u8),
    AyyamIHa,
}

/// Last Badí' year that the calendar tables cover.
pub const LAST_YEAR_SUPPORTED: u8 = 221;

/// A Gregorian leap year.
pub open spec fn gregorian_leap_year(year: int) -> bool {
    (year % 4 == 0 && year % 100 != 0) || year % 400 == 0
}

/// The days of Ayyám-i-Há in a Badí' year: five in the years the calendar
/// crate's table marks (those of 172 to 221 whose Ayyám-i-Há holds a leap
/// day), four in its other years; outside the table, five when the Gregorian
/// year in which the Badí' year ends is a leap year.
pub open spec fn intercalary_days(year: u8) -> u16 {
    if 172 <= year <= 221 {
        if year == 174 || year == 178 || year == 182 || year == 187 || year == 191 || year == 195
            || year == 199 || year == 203 || year == 207 || year == 211 || year == 216 || year == 220 {
            5
        } else {
            4
        }
    } else if gregorian_leap_year(year + 1844) {
        5
    } else {
        4
    }
}

/// A month value that names a real month: 1 to 19, or Ayyám-i-Há.
pub open spec fn month_is_valid(month: BadiMonth) -> bool {
    match month {
        BadiMonth::Month(m) => 1 <= m <= 19,
        BadiMonth::AyyamIHa => true,
    }
}

/// A date of the supported range: year 1 to 221, a real month, and a day
/// that the month has in that year.
pub open spec fn date_is_valid(year: u8, month: BadiMonth, day: u16) -> bool {
    &&& 1 <= year <= LAST_YEAR_SUPPORTED
    &&& month_is_valid(month)
    &&& 1 <= day <= number_of_days_of(month, year)
}

/// The 1-based day of the year on which a date falls: the eighteen months
/// fill days 1 to 342, Ayyám-i-Há follows, then the nineteenth month.
pub open spec fn day_of_year_of(year: u8, month: BadiMonth, day: u16) -> int {
    match month {
        BadiMonth::Month(m) => if m < 19 {
            19 * (m - 1) + day
        } else {
            342 + number_of_days_of(BadiMonth::AyyamIHa, year) + day
        },
        BadiMonth::AyyamIHa => 342 + day,
    }
}

/// Position of a month in the year: the months 1 to 18, then Ayyám-i-Há,
/// then the nineteenth month.
pub open spec fn month_rank(month: BadiMonth) -> int {
    match month {
        BadiMonth::Month(m) => if m == 19 { 20 } else { m as int },
        BadiMonth::AyyamIHa => 19,
    }
}

/// `(year, month)` comes strictly before `(later_year, later_month)`.
pub open spec fn month_precedes(year: int, month: BadiMonth, later_year: int, later_month: BadiMonth) -> bool {
    year < later_year || (year == later_year && month_rank(month) < month_rank(later_month))
}

/// The month that a month number on the command line stands for: 0 is
/// Ayyám-i-Há, any other number is that month.
pub open spec fn month_for_number(number: u8) -> BadiMonth {
    if number == 0 {
        BadiMonth::AyyamIHa
    } else {
        BadiMonth::Month(number)
    }
}

/// Reads a month number as given on the command line (0 for Ayyám-i-Há).
pub fn month_from_number(number: u8) -> (month: BadiMonth)
    ensures
        month == month_for_number(number),
        month_is_valid(month) <==> number <= 19,
        month is AyyamIHa <==> number == 0,
        month matches BadiMonth::Month(m) ==> m == number,
{
    if number == 0 {
        BadiMonth::AyyamIHa
    } else {
        BadiMonth::Month(number)
    }
}

/// A Badí' date as asked for on the command line: year, month number and day
/// in the widths the command line reads them.
pub open spec fn requested_date(year: u16, month: u8, day: u8) -> (u8, BadiMonth, u16) {
    ((year % 256) as u8, month_for_number(month), day as u16)
}

/// Turns a requested date into the values a date is built from. The year is
/// narrowed to eight bits by dropping its high bits, as a cast does.
pub fn date_from_request(year: u16, month: u8, day: u8) -> (date: (u8, BadiMonth, u16))
    ensures
        date == requested_date(year, month, day),
        date.0 as int == year as int % 256,
        date.1 == month_for_number(month),
        date.1 is AyyamIHa <==> month == 0,
        date.1 matches BadiMonth::Month(m) ==> m == month,
        date.2 == day as u16,
{
    let narrowed: u8 = (year % 256) as u8;
    (narrowed, month_from_number(month), day as u16)
}

/// A Nineteen Day Feast falls on the first day of each of the nineteen
/// months; Ayyám-i-Há holds none.
pub open spec fn feast_day(month: BadiMonth, day: u16) -> bool {
    day == 1 && month != BadiMonth::AyyamIHa
}

pub fn is_feast(month: BadiMonth, day: u16) -> (feast: bool)
    ensures
        feast == feast_day(month, day),
        feast ==> day == 1,
        month is AyyamIHa ==> !feast,
        month is Month && day == 1 ==> feast,
{
    day == 1 && month != BadiMonth::AyyamIHa
}

/// Each of the nineteen months holds exactly one Feast, on its first day,
/// and Ayyám-i-Há holds none: no other day of a month is a Feast.
pub proof fn lemma_one_feast_per_month(month: BadiMonth, day: u16, other_day: u16)
    ensures
        feast_day(month, day) ==> day == 1,
        feast_day(month, day) && feast_day(month, other_day) ==> day == other_day,
        month is Month ==> feast_day(month, 1),
        month is AyyamIHa ==> !feast_day(month, day),
        2 <= day ==> !feast_day(month, day),
{
}

/// Year and month of the next Nineteen Day Feast after a date in `month` of
/// `year`: the next month, skipping Ayyám-i-Há, and the first month of the
/// next year after the nineteenth.
pub open spec fn next_feast_month(year: u8, month: BadiMonth) -> (u8, BadiMonth) {
    match month {
        BadiMonth::Month(m) => if m == 19 {
            ((year + 1) as u8, BadiMonth::Month(1))
        } else {
            (year, BadiMonth::Month((m + 1) as u8))
        },
        BadiMonth::AyyamIHa => (year, BadiMonth::Month(19)),
    }
}

pub fn next_feast(year: u8, month: BadiMonth) -> (next: (u8, BadiMonth))
    requires
        month_is_valid(month),
        month == BadiMonth::Month(19) ==> year < u8::MAX,
    ensures
        next == next_feast_month(year, month),
        month_is_valid(next.1),
        next.1 !is AyyamIHa,
{
    match month {
        BadiMonth::Month(m) => {
            if m == 19 {
                (year + 1, BadiMonth::Month(1))
            } else {
                (year, BadiMonth::Month(m + 1))
            }
        },
        BadiMonth::AyyamIHa => (year, BadiMonth::Month(19)),
    }
}

/// The next feast comes after the current month, and no month that holds a
/// feast lies between the two: it is the first feast to come.
pub proof fn lemma_next_feast_is_first_after(year: u8, month: BadiMonth, other_year: u8, other_month: BadiMonth)
    requires
        month_is_valid(month),
        month == BadiMonth::Month(19) ==> year < u8::MAX,
        month_is_valid(other_month),
        other_month !is AyyamIHa,
        month_precedes(year as int, month, other_year as int, other_month),
    ensures
        month_precedes(year as int, month, next_feast_month(year, month).0 as int, next_feast_month(year, month).1),
        next_feast_month(year, month).0 == other_year && next_feast_month(year, month).1 == other_month
            || month_precedes(
            next_feast_month(year, month).0 as int,
            next_feast_month(year, month).1,
            other_year as int,
            other_month,
        ),
{
}

/// What remains of Ayyám-i-Há, or the year whose Ayyám-i-Há comes next.
#[derive(Clone, Copy, Debug, PartialEq, Eq, Structural)]
pub enum AyyamIHaCountdown {
    /// Inside Ayyám-i-Há: the days left after the current one.
    DaysRemaining(i64),
    /// Outside Ayyám-i-Há: the year in which the next Ayyám-i-Há falls.
    NextInYear(u8),
}

pub open spec fn ayyam_i_ha_countdown_of(year: u8, month: BadiMonth, day: u16) -> AyyamIHaCountdown {
    match month {
        BadiMonth::AyyamIHa => AyyamIHaCountdown::DaysRemaining(
            (number_of_days_of(BadiMonth::AyyamIHa, year) - day) as i64,
        ),
        BadiMonth::Month(m) => if m == 19 {
            AyyamIHaCountdown::NextInYear((year + 1) as u8)
        } else {
            AyyamIHaCountdown::NextInYear(year)
        },
    }
}

/// Ayyám-i-Há of `next_year` is the first to come after `month` of `year`:
/// it comes later, and the one of the year before does not.
pub open spec fn first_ayyam_i_ha_after(year: u8, month: BadiMonth, next_year: u8) -> bool {
    &&& month_precedes(year as int, month, next_year as int, BadiMonth::AyyamIHa)
    &&& !month_precedes(year as int, month, next_year - 1, BadiMonth::AyyamIHa)
}

/// Outside Ayyám-i-Há, the countdown names the year of the first Ayyám-i-Há
/// to come: the same year in months 1 to 18, the next in month 19. Inside it,
/// the days left and the current day together make up its length.
pub proof fn lemma_ayyam_i_ha_countdown_names_first_to_come(year: u8, month: BadiMonth, day: u16)
    requires
        month_is_valid(month),
        month == BadiMonth::Month(19) ==> year < u8::MAX,
    ensures
        ayyam_i_ha_countdown_of(year, month, day) matches AyyamIHaCountdown::NextInYear(next)
            ==> first_ayyam_i_ha_after(year, month, next),
        ayyam_i_ha_countdown_of(year, month, day) matches AyyamIHaCountdown::DaysRemaining(left)
            ==> month == BadiMonth::AyyamIHa && left + day == number_of_days_of(BadiMonth::AyyamIHa, year),
        month == BadiMonth::AyyamIHa <==> ayyam_i_ha_countdown_of(year, month, day) is DaysRemaining,
{
}

/// During Ayyám-i-Há, the days that remain of it; otherwise the year of the
/// next Ayyám-i-Há, which is the next year once the nineteenth month began.
pub fn ayyam_i_ha_countdown(year: u8, month: BadiMonth, day: u16) -> (countdown: AyyamIHaCountdown)
    requires
        month == BadiMonth::Month(19) ==> year < u8::MAX,
    ensures
        countdown == ayyam_i_ha_countdown_of(year, month, day),
        countdown is DaysRemaining <==> month == BadiMonth::AyyamIHa,
        countdown matches AyyamIHaCountdown::DaysRemaining(left) ==> left + day == intercalary_days(year),
        month_is_valid(month) ==> (countdown matches AyyamIHaCountdown::NextInYear(next) ==> first_ayyam_i_ha_after(
            year,
            month,
            next,
        )),
        month == BadiMonth::AyyamIHa ==> countdown == AyyamIHaCountdown::DaysRemaining(
            (intercalary_days(year) - day) as i64,
        ),
{
    match month {
        BadiMonth::AyyamIHa => {
            let total = number_of_days(BadiMonth::AyyamIHa, year);
            AyyamIHaCountdown::DaysRemaining(total as i64 - day as i64)
        },
        BadiMonth::Month(m) => {
            if m == 19 {
                AyyamIHaCountdown::NextInYear(year + 1)
            } else {
                AyyamIHaCountdown::NextInYear(year)
            }
        },
    }
}

/// The month and day that a 1-based day of the year falls on, where the
/// year has one: the eighteen months fill days 1 to 342, Ayyám-i-Há follows,
/// and the nineteenth month takes the nineteen days after it.
pub open spec fn month_and_day_for(year: u8, day_of_year: u16) -> Option<(BadiMonth, u16)> {
    let intercalary = number_of_days_of(BadiMonth::AyyamIHa, year);
    if day_of_year < 343 {
        Some((BadiMonth::Month(((day_of_year - 1) / 19 + 1) as u8), ((day_of_year - 1) % 19 + 1) as u16))
    } else if day_of_year < 343 + intercalary {
        Some((BadiMonth::AyyamIHa, (day_of_year - 342) as u16))
    } else if day_of_year - 342 - intercalary <= 19 {
        Some((BadiMonth::Month(19), (day_of_year - 342 - intercalary) as u16))
    } else {
        None
    }
}

} // verus!
