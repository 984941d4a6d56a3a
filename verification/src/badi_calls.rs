//! The calls this library makes into the `badi_date` crate. The contracts
//! here are trusted, not proved: each states what the crate's source does,
//! and the bodies only make the call and convert its values. Values cross
//! the boundary as plain numbers and as this library's own month and
//! holy-day types.
use vstd::prelude::*;

use badi_date::{BadiDateLike, HolyDayProviding};

use crate::calendar::{
    BadiMonth, date_is_valid, day_of_year_of, intercalary_days, month_and_day_for, month_is_valid,
    LAST_YEAR_SUPPORTED,
};
use crate::holy_days::{
    HolyDay, english_name, first_holy_day_after, fixed_day_of_year, holy_day_after, holy_day_at, holy_day_in,
};
use crate::text::transliteration_text;

verus! {

/// What `badi_date::BadiMonth::number_of_days` gives for a month and year.
pub uninterp spec fn number_of_days_of(month: BadiMonth, year: u8) -> u16;

/// `badi_date::BadiMonth::number_of_days`: nineteen for every numbered
/// month; for Ayyám-i-Há four or five, from the crate's table of years and,
/// past it, the Gregorian leap-year rule.
#[verifier::external_body]
pub(crate) fn number_of_days(month: BadiMonth, year: u8) -> (days: u16)
    ensures
        days == number_of_days_of(month, year),
        month is Month ==> days == 19,
        month is AyyamIHa ==> days == intercalary_days(year),
        month is AyyamIHa ==> 4 <= days <= 5,
{
    let month = match month {
        BadiMonth::Month(m) => badi_date::BadiMonth::Month(m),
        BadiMonth::AyyamIHa => badi_date::BadiMonth::AyyamIHa,
    };
    month.number_of_days(year)
}

/// `badi_date::BadiDate::new`, asked only whether it accepts the date: it
/// does exactly for years 1 to 221, months 1 to 19 or Ayyám-i-Há, and days
/// from 1 to the month's number of days.
#[verifier::external_body]
pub(crate) fn is_valid_date(year: u8, month: BadiMonth, day: u16) -> (valid: bool)
    ensures
        valid == date_is_valid(year, month, day),
{
    let month = match month {
        BadiMonth::Month(m) => badi_date::BadiMonth::Month(m),
        BadiMonth::AyyamIHa => badi_date::BadiMonth::AyyamIHa,
    };
    badi_date::BadiDate::new(year, month, day).is_ok()
}

/// Position, in the order `badi_date::BahaiHolyDay` declares its variants,
/// of the holy day that `HolyDayProviding::holy_day` finds on a valid date.
pub uninterp spec fn holy_day_index_on(year: u8, month: BadiMonth, day: u16) -> Option<u8>;

/// `HolyDayProviding::holy_day` on the `badi_date::BadiDate` built from the
/// arguments: `None` when the crate refuses the date; otherwise the holy day,
/// if any, whose day of the year in that year is the date's, given by its
/// position among the eleven variants.
#[verifier::external_body]
pub(crate) fn holy_day_index(year: u8, month: BadiMonth, day: u16) -> (index: Option<u8>)
    ensures
        date_is_valid(year, month, day) ==> index == holy_day_index_on(year, month, day),
        !date_is_valid(year, month, day) ==> index is None,
        date_is_valid(year, month, day) ==> (index is Some <==> holy_day_in(year, day_of_year_of(year, month, day))),
        index matches Some(i) ==> i < 11 && (holy_day_at(i) matches Some(h) && holy_day_doy(h, year)
            == day_of_year_of(year, month, day)),
{
    let month = match month {
        BadiMonth::Month(m) => badi_date::BadiMonth::Month(m),
        BadiMonth::AyyamIHa => badi_date::BadiMonth::AyyamIHa,
    };
    match badi_date::BadiDate::new(year, month, day) {
        Ok(date) => match date.holy_day() { Some(h) => Some(h as u8), None => None },
        Err(_) => None,
    }
}

/// What `badi_date::BahaiHolyDay::day_of_year` gives for a holy day and year.
pub uninterp spec fn holy_day_doy(holy_day: HolyDay, year: u8) -> u16;

/// `badi_date::BahaiHolyDay::day_of_year`: the fixed day for the nine holy
/// days that have one. For the Twin Holy Birthdays, in the years 172 to 221
/// of the crate's table, the Birth of the Báb falls on a day from 209 to 238
/// and the Birth of Bahá’u’lláh on the day after; in other years on the
/// fallback days 214 and 237. Which table day a year gives is left to the
/// name.
#[verifier::external_body]
pub(crate) fn holy_day_day_of_year(holy_day: HolyDay, year: u8) -> (day_of_year: u16)
    ensures
        day_of_year == holy_day_doy(holy_day, year),
        fixed_day_of_year(holy_day) matches Some(d) ==> day_of_year == d,
        holy_day == HolyDay::BirthOfTheBab ==> if 172 <= year <= 221 {
            209 <= day_of_year <= 238
        } else {
            day_of_year == 214
        },
        holy_day == HolyDay::BirthOfBahaullah ==> if 172 <= year <= 221 {
            day_of_year == holy_day_doy(HolyDay::BirthOfTheBab, year) + 1
        } else {
            day_of_year == 237
        },
{
    let holy_day = match holy_day {
        HolyDay::NawRuz => badi_date::BahaiHolyDay::NawRuz, HolyDay::Ridvan1st => badi_date::BahaiHolyDay::Ridvan1st,
        HolyDay::Ridvan9th => badi_date::BahaiHolyDay::Ridvan9th, HolyDay::Ridvan12th => badi_date::BahaiHolyDay::Ridvan12th,
        HolyDay::DeclarationOfTheBab => badi_date::BahaiHolyDay::DeclarationOfTheBab,
        HolyDay::AscensionOfBahaullah => badi_date::BahaiHolyDay::AscensionOfBahaullah,
        HolyDay::MartyrdomOfTheBab => badi_date::BahaiHolyDay::MartyrdomOfTheBab,
        HolyDay::BirthOfTheBab => badi_date::BahaiHolyDay::BirthOfTheBab, HolyDay::BirthOfBahaullah => badi_date::BahaiHolyDay::BirthOfBahaullah,
        HolyDay::DayOfTheCovenant => badi_date::BahaiHolyDay::DayOfTheCovenant,
        HolyDay::AscensionOfAbdulBaha => badi_date::BahaiHolyDay::AscensionOfAbdulBaha,
    };
    holy_day.day_of_year(year)
}

/// `badi_date::BahaiHolyDay::english`: the English name from the crate's
/// locale file.
#[verifier::external_body]
pub(crate) fn holy_day_english(holy_day: HolyDay) -> (name: String)
    ensures
        name@ == english_name(holy_day),
{
    let holy_day = match holy_day {
        HolyDay::NawRuz => badi_date::BahaiHolyDay::NawRuz, HolyDay::Ridvan1st => badi_date::BahaiHolyDay::Ridvan1st,
        HolyDay::Ridvan9th => badi_date::BahaiHolyDay::Ridvan9th, HolyDay::Ridvan12th => badi_date::BahaiHolyDay::Ridvan12th,
        HolyDay::DeclarationOfTheBab => badi_date::BahaiHolyDay::DeclarationOfTheBab,
        HolyDay::AscensionOfBahaullah => badi_date::BahaiHolyDay::AscensionOfBahaullah,
        HolyDay::MartyrdomOfTheBab => badi_date::BahaiHolyDay::MartyrdomOfTheBab,
        HolyDay::BirthOfTheBab => badi_date::BahaiHolyDay::BirthOfTheBab, HolyDay::BirthOfBahaullah => badi_date::BahaiHolyDay::BirthOfBahaullah,
        HolyDay::DayOfTheCovenant => badi_date::BahaiHolyDay::DayOfTheCovenant,
        HolyDay::AscensionOfAbdulBaha => badi_date::BahaiHolyDay::AscensionOfAbdulBaha,
    };
    holy_day.english()
}

/// The date, as year, month and day, that `HolyDayProviding::next_holy_day`
/// gives for a valid date.
pub uninterp spec fn next_holy_day_after(year: u8, month: BadiMonth, day: u16) -> Option<(u8, BadiMonth, u16)>;

/// `HolyDayProviding::next_holy_day` on the `badi_date::BadiDate` built from
/// a valid date: the date of the first holy day after it in its year; when
/// none is left that year, Naw-Rúz of the next year, which is day 1; `None`
/// when that year is past the supported range.
#[verifier::external_body]
pub(crate) fn next_holy_day(year: u8, month: BadiMonth, day: u16) -> (next: Option<(u8, BadiMonth, u16)>)
    requires
        date_is_valid(year, month, day),
    ensures
        next == next_holy_day_after(year, month, day),
        next is Some <==> (holy_day_after(year, day_of_year_of(year, month, day)) || year < LAST_YEAR_SUPPORTED),
        next matches Some(n) ==> date_is_valid(n.0, n.1, n.2),
        next matches Some(n) ==> (n.0 == year <==> holy_day_after(year, day_of_year_of(year, month, day))),
        next matches Some(n) ==> (n.0 == year ==> first_holy_day_after(year, day_of_year_of(year, month, day), day_of_year_of(n.0, n.1, n.2))),
        next matches Some(n) ==> (n.0 != year ==> n == ((year + 1) as u8, BadiMonth::Month(1), 1u16) && first_holy_day_after(n.0, 0, 1)),
{
    let month = match month {
        BadiMonth::Month(m) => badi_date::BadiMonth::Month(m),
        BadiMonth::AyyamIHa => badi_date::BadiMonth::AyyamIHa,
    };
    match badi_date::BadiDate::new(year, month, day).unwrap().next_holy_day() {
        Ok(next) => Some((next.year(), match next.month() {
            badi_date::BadiMonth::Month(m) => BadiMonth::Month(m),
            badi_date::BadiMonth::AyyamIHa => BadiMonth::AyyamIHa,
        }, next.day())),
        Err(_) => None,
    }
}

/// `BadiDateLike::with_year_and_doy` on a `badi_date::BadiDate` of the
/// given year: the month and day on which a 1-based day of the year falls,
/// or `None` where the year has no such day.
#[verifier::external_body]
pub(crate) fn date_of_day_of_year(year: u8, day_of_year: u16) -> (date: Option<(BadiMonth, u16)>)
    requires
        1 <= year <= LAST_YEAR_SUPPORTED,
        1 <= day_of_year,
    ensures
        date == month_and_day_for(year, day_of_year),
{
    let template = badi_date::BadiDate::new(year, badi_date::BadiMonth::Month(1), 1).unwrap();
    match template.with_year_and_doy(year, day_of_year) {
        Ok(date) => Some((match date.month() {
            badi_date::BadiMonth::Month(m) => BadiMonth::Month(m),
            badi_date::BadiMonth::AyyamIHa => BadiMonth::AyyamIHa,
        }, date.day())),
        Err(_) => None,
    }
}

/// `badi_date::BadiMonth::transliteration`: the transliterated Arabic name
/// of a month from the crate's locale file.
#[verifier::external_body]
pub(crate) fn month_transliteration(month: BadiMonth) -> (name: String)
    requires
        month_is_valid(month),
    ensures
        name@ == transliteration_text(month),
{
    let month = match month {
        BadiMonth::Month(m) => badi_date::BadiMonth::Month(m),
        BadiMonth::AyyamIHa => badi_date::BadiMonth::AyyamIHa,
    };
    month.transliteration()
}

} // verus!
