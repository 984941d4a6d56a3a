//! What is noted about a day: the holy day it holds, its place in
//! Ayyám-i-Há, a Nineteen Day Feast, and the holy day still to come.
use vstd::prelude::*;
use vstd::string::*;

use crate::badi_calls::{holy_day_index, holy_day_index_on, is_valid_date, next_holy_day, next_holy_day_after, number_of_days, number_of_days_of};
use crate::calendar::{
    BadiMonth, date_is_valid, day_of_year_of, feast_day, intercalary_days, is_feast, month_is_valid,
    LAST_YEAR_SUPPORTED,
};
use crate::text::{lemma_no_month_named_naw_ruz, month_name, transliteration_text};
use crate::badi_calls::holy_day_doy;
use crate::holy_days::{
    HolyDay, first_holy_day_after, holy_day_after, holy_day_at, holy_day_from_index, holy_day_in, work_is_suspended,
    work_suspended,
};

verus! {

/// The holy day that falls on a date, if the date is valid and holds one.
pub open spec fn holy_day_on_date(year: u8, month: BadiMonth, day: u16) -> Option<HolyDay> {
    if date_is_valid(year, month, day) {
        match holy_day_index_on(year, month, day) {
            Some(index) => holy_day_at(index),
            None => None,
        }
    } else {
        None
    }
}

/// The holy day on a date: one exactly when the date is valid and some holy
/// day of its year falls on its day of the year, and then that one.
pub fn holy_day_on(year: u8, month: BadiMonth, day: u16) -> (holy_day: Option<HolyDay>)
    ensures
        holy_day == holy_day_on_date(year, month, day),
        holy_day is Some <==> date_is_valid(year, month, day) && holy_day_in(year, day_of_year_of(year, month, day)),
        holy_day matches Some(h) ==> holy_day_doy(h, year) == day_of_year_of(year, month, day),
{
    match holy_day_index(year, month, day) {
        Some(index) => holy_day_from_index(index),
        None => None,
    }
}

/// One note shown under a date.
#[derive(Clone, Copy, Debug, PartialEq, Eq, Structural)]
pub enum Note {
    /// The date is a holy day; whether work is suspended on it.
    HolyDayNote { holy_day: HolyDay, work_suspended: bool },
    /// The date is the `day`-th of the `total` days of Ayyám-i-Há.
    AyyamIHaDay { day: u16, total: u16 },
    /// The date is a Nineteen Day Feast.
    FeastDay,
}

/// The notes for a date, in the order they are shown: its holy day, its
/// place in Ayyám-i-Há, its feast, each only where it applies.
pub open spec fn notes_of(year: u8, month: BadiMonth, day: u16) -> Seq<Note> {
    let holy = match holy_day_on_date(year, month, day) {
        Some(holy_day) => seq![Note::HolyDayNote { holy_day, work_suspended: work_is_suspended(holy_day) }],
        None => Seq::empty(),
    };
    let intercalary = if month == BadiMonth::AyyamIHa {
        seq![Note::AyyamIHaDay { day, total: number_of_days_of(BadiMonth::AyyamIHa, year) }]
    } else {
        Seq::empty()
    };
    let feast = if feast_day(month, day) {
        seq![Note::FeastDay]
    } else {
        Seq::empty()
    };
    holy + intercalary + feast
}

pub fn date_notes(year: u8, month: BadiMonth, day: u16) -> (notes: Vec<Note>)
    ensures
        notes@ == notes_of(year, month, day),
        month == BadiMonth::AyyamIHa ==> 4 <= number_of_days_of(BadiMonth::AyyamIHa, year) <= 5,
        month == BadiMonth::AyyamIHa ==> notes@.contains(Note::AyyamIHaDay { day, total: intercalary_days(year) }),
        forall|k: int|
            0 <= k < notes@.len() ==> (#[trigger] notes@[k] matches Note::AyyamIHaDay { day: d, total }
                ==> month == BadiMonth::AyyamIHa && d == day && total == intercalary_days(year)),
        notes@.contains(Note::FeastDay) <==> (day == 1 && month != BadiMonth::AyyamIHa),
        notes@.contains(Note::FeastDay) ==> notes@.last() == Note::FeastDay,
        forall|k: int|
            0 <= k < notes@.len() ==> (#[trigger] notes@[k] matches Note::HolyDayNote { holy_day, work_suspended }
                ==> k == 0 && date_is_valid(year, month, day) && holy_day_doy(holy_day, year) == day_of_year_of(
                year,
                month,
                day,
            ) && work_suspended == (holy_day != HolyDay::DayOfTheCovenant && holy_day != HolyDay::AscensionOfAbdulBaha)),
        date_is_valid(year, month, day) && holy_day_in(year, day_of_year_of(year, month, day)) ==> notes@.len() > 0
            && notes@[0] is HolyDayNote,
{
    let mut notes: Vec<Note> = Vec::new();
    if let Some(holy_day) = holy_day_on(year, month, day) {
        notes.push(Note::HolyDayNote { holy_day, work_suspended: work_suspended(holy_day) });
    }
    if month == BadiMonth::AyyamIHa {
        let total = number_of_days(BadiMonth::AyyamIHa, year);
        notes.push(Note::AyyamIHaDay { day, total });
    }
    if is_feast(month, day) {
        notes.push(Note::FeastDay);
    }
    assert(notes@ =~= notes_of(year, month, day));
    proof {
        lemma_notes_of_a_date(year, month, day);
    }
    notes
}

/// A date of Ayyám-i-Há is noted as its day out of the days Ayyám-i-Há has
/// that year, and no other date carries such a note; a date carries a Feast
/// note exactly when it is the first day of one of the nineteen months.
pub proof fn lemma_notes_of_a_date(year: u8, month: BadiMonth, day: u16)
    ensures
        month == BadiMonth::AyyamIHa ==> notes_of(year, month, day).contains(
            Note::AyyamIHaDay { day, total: number_of_days_of(BadiMonth::AyyamIHa, year) },
        ),
        forall|k: int|
            0 <= k < notes_of(year, month, day).len() ==> (#[trigger] notes_of(year, month, day)[k] matches Note::AyyamIHaDay {
                day: d,
                total,
            } ==> month == BadiMonth::AyyamIHa && d == day && total == number_of_days_of(BadiMonth::AyyamIHa, year)),
        notes_of(year, month, day).contains(Note::FeastDay) <==> (day == 1 && month != BadiMonth::AyyamIHa),
{
    broadcast use vstd::seq_lib::group_seq_properties;

    let notes = notes_of(year, month, day);
    if month == BadiMonth::AyyamIHa {
        let holy_len = notes.len() - 1;
        assert(notes[holy_len] == Note::AyyamIHaDay { day, total: number_of_days_of(BadiMonth::AyyamIHa, year) });
    }
    if day == 1 && month != BadiMonth::AyyamIHa {
        assert(notes[notes.len() - 1] == Note::FeastDay);
    }
}

/// A date never carries both a feast note and an Ayyám-i-Há note, and it
/// carries a feast note exactly on the first day of a month.
pub proof fn lemma_feast_and_ayyam_i_ha_exclusive(year: u8, month: BadiMonth, day: u16)
    ensures
        !(notes_of(year, month, day).contains(Note::FeastDay) && month == BadiMonth::AyyamIHa),
        notes_of(year, month, day).contains(Note::FeastDay) <==> feast_day(month, day),
{
    broadcast use vstd::seq_lib::group_seq_properties;

    let notes = notes_of(year, month, day);
    if feast_day(month, day) {
        assert(notes[notes.len() - 1] == Note::FeastDay);
    }
}

/// Naw-Rúz, the first day of the first month, on which the year begins.
pub open spec fn is_naw_ruz(month: BadiMonth, day: u16) -> bool {
    month == BadiMonth::Month(1) && day == 1
}

/// The name shown after the day number on the first line of a date: Naw-Rúz
/// goes by its own name, every other day by its month's transliterated name.
pub open spec fn date_heading_text(month: BadiMonth, day: u16) -> Seq<char> {
    if is_naw_ruz(month, day) {
        "Naw-Ruz"@
    } else {
        transliteration_text(month)
    }
}

pub fn date_heading(month: BadiMonth, day: u16) -> (heading: String)
    requires
        month_is_valid(month),
    ensures
        heading@ == date_heading_text(month, day),
        heading@ == "Naw-Ruz"@ <==> (month == BadiMonth::Month(1) && day == 1),
        !(month == BadiMonth::Month(1) && day == 1) ==> heading@ == transliteration_text(month),
{
    proof {
        lemma_no_month_named_naw_ruz(month);
    }
    if month == BadiMonth::Month(1) && day == 1 {
        String::from_str("Naw-Ruz")
    } else {
        month_name(month)
    }
}

/// The notes printed under a date in the plain view: none on Naw-Rúz, whose
/// name the first line already gives; on every other day the date's notes.
pub open spec fn plain_notes_of(year: u8, month: BadiMonth, day: u16) -> Seq<Note> {
    if is_naw_ruz(month, day) {
        Seq::empty()
    } else {
        notes_of(year, month, day)
    }
}

pub fn plain_date_notes(year: u8, month: BadiMonth, day: u16) -> (notes: Vec<Note>)
    ensures
        notes@ == plain_notes_of(year, month, day),
        month == BadiMonth::Month(1) && day == 1 ==> notes@.len() == 0,
        !(month == BadiMonth::Month(1) && day == 1) ==> notes@ == notes_of(year, month, day),
{
    if month == BadiMonth::Month(1) && day == 1 {
        Vec::new()
    } else {
        date_notes(year, month, day)
    }
}

/// The plain view of Naw-Rúz is its date line alone, naming the day
/// "Naw-Ruz"; every other day is named by its month and keeps its notes.
pub proof fn lemma_plain_view_of_naw_ruz(year: u8, month: BadiMonth, day: u16)
    ensures
        date_heading_text(BadiMonth::Month(1), 1) == "Naw-Ruz"@,
        plain_notes_of(year, BadiMonth::Month(1), 1).len() == 0,
        !is_naw_ruz(month, day) ==> date_heading_text(month, day) == transliteration_text(month)
            && plain_notes_of(year, month, day) == notes_of(year, month, day),
{
}

/// The next holy day after a date: its date and the holy day it holds.
#[derive(Clone, Copy, Debug, PartialEq, Eq, Structural)]
pub struct UpcomingHolyDay {
    pub year: u8,
    pub month: BadiMonth,
    pub day: u16,
    pub holy_day: Option<HolyDay>,
}

pub open spec fn upcoming_holy_day_of(year: u8, month: BadiMonth, day: u16) -> Option<UpcomingHolyDay> {
    if !date_is_valid(year, month, day) {
        None
    } else {
        match next_holy_day_after(year, month, day) {
            Some(next) => Some(
                UpcomingHolyDay { year: next.0, month: next.1, day: next.2, holy_day: holy_day_on_date(next.0, next.1, next.2) },
            ),
            None => None,
        }
    }
}

/// The next holy day after a date, with the holy day found on that date;
/// `None` when the date is not valid or no holy day follows within the
/// supported years. The date found holds a holy day, comes after the given
/// date, and no holy day falls between the two: it is the first later holy
/// day of the same year or, when none is left, Naw-Rúz of the next year.
pub fn upcoming_holy_day(year: u8, month: BadiMonth, day: u16) -> (upcoming: Option<UpcomingHolyDay>)
    ensures
        upcoming == upcoming_holy_day_of(year, month, day),
        upcoming is Some <==> date_is_valid(year, month, day) && (holy_day_after(
            year,
            day_of_year_of(year, month, day),
        ) || year < LAST_YEAR_SUPPORTED),
        upcoming matches Some(u) ==> date_is_valid(u.year, u.month, u.day) && (u.holy_day matches Some(h)
            && holy_day_doy(h, u.year) == day_of_year_of(u.year, u.month, u.day)),
        upcoming matches Some(u) ==> (u.year == year ==> first_holy_day_after(
            year,
            day_of_year_of(year, month, day),
            day_of_year_of(u.year, u.month, u.day),
        )),
        upcoming matches Some(u) ==> (u.year != year ==> u.year == year + 1 && u.month == BadiMonth::Month(1)
            && u.day == 1 && !holy_day_after(year, day_of_year_of(year, month, day))),
{
    if !is_valid_date(year, month, day) {
        return None;
    }
    match next_holy_day(year, month, day) {
        Some((next_year, next_month, next_day)) => Some(
            UpcomingHolyDay {
                year: next_year,
                month: next_month,
                day: next_day,
                holy_day: holy_day_on(next_year, next_month, next_day),
            },
        ),
        None => None,
    }
}

/// Seconds from `now` until `end`, and none once `end` has passed.
pub fn seconds_until(end: i64, now: i64) -> (seconds: i64)
    requires
        i64::MIN <= end - now <= i64::MAX,
    ensures
        seconds == if end - now > 0 { end - now } else { 0 },
{
    let difference = end - now;
    if difference > 0 {
        difference
    } else {
        0
    }
}

} // verus!
