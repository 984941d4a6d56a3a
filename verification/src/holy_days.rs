//! The eleven Bahá'í Holy Days: how each is shown, the order in which a
//! year's holy days fall, and the dates they fall on.
use vstd::prelude::*;

use crate::badi_calls::{holy_day_doy, holy_day_english};

verus! {

/// The eleven Holy Days, in the order the calendar lists them.
#[derive(Clone, Copy, Debug, PartialEq, Eq, Structural)]
pub enum HolyDay {
    NawRuz,
    Ridvan1st,
    Ridvan9th,
    Ridvan12th,
    DeclarationOfTheBab,
    AscensionOfBahaullah,
    MartyrdomOfTheBab,
    BirthOfTheBab,
    BirthOfBahaullah,
    DayOfTheCovenant,
    AscensionOfAbdulBaha,
}

/// Position of a holy day in the calendar's list, from 0 to 10.
pub open spec fn holy_day_index_of(holy_day: HolyDay) -> u8 {
    match holy_day {
        HolyDay::NawRuz => 0,
        HolyDay::Ridvan1st => 1,
        HolyDay::Ridvan9th => 2,
        HolyDay::Ridvan12th => 3,
        HolyDay::DeclarationOfTheBab => 4,
        HolyDay::AscensionOfBahaullah => 5,
        HolyDay::MartyrdomOfTheBab => 6,
        HolyDay::BirthOfTheBab => 7,
        HolyDay::BirthOfBahaullah => 8,
        HolyDay::DayOfTheCovenant => 9,
        HolyDay::AscensionOfAbdulBaha => 10,
    }
}

/// The holy day at a position of the calendar's list.
pub open spec fn holy_day_at(index: u8) -> Option<HolyDay> {
    if index == 0 { Some(HolyDay::NawRuz) }
    else if index == 1 { Some(HolyDay::Ridvan1st) }
    else if index == 2 { Some(HolyDay::Ridvan9th) }
    else if index == 3 { Some(HolyDay::Ridvan12th) }
    else if index == 4 { Some(HolyDay::DeclarationOfTheBab) }
    else if index == 5 { Some(HolyDay::AscensionOfBahaullah) }
    else if index == 6 { Some(HolyDay::MartyrdomOfTheBab) }
    else if index == 7 { Some(HolyDay::BirthOfTheBab) }
    else if index == 8 { Some(HolyDay::BirthOfBahaullah) }
    else if index == 9 { Some(HolyDay::DayOfTheCovenant) }
    else if index == 10 { Some(HolyDay::AscensionOfAbdulBaha) }
    else { None }
}

pub fn holy_day_from_index(index: u8) -> (holy_day: Option<HolyDay>)
    ensures
        holy_day == holy_day_at(index),
        holy_day is Some <==> index < 11,
        holy_day matches Some(h) ==> holy_day_index_of(h) == index,
{
    match index {
        0 => Some(HolyDay::NawRuz),
        1 => Some(HolyDay::Ridvan1st),
        2 => Some(HolyDay::Ridvan9th),
        3 => Some(HolyDay::Ridvan12th),
        4 => Some(HolyDay::DeclarationOfTheBab),
        5 => Some(HolyDay::AscensionOfBahaullah),
        6 => Some(HolyDay::MartyrdomOfTheBab),
        7 => Some(HolyDay::BirthOfTheBab),
        8 => Some(HolyDay::BirthOfBahaullah),
        9 => Some(HolyDay::DayOfTheCovenant),
        10 => Some(HolyDay::AscensionOfAbdulBaha),
        _ => None,
    }
}

/// The positions of the holy days in the calendar's list, in the order the
/// year's fixed days bring them: Naw-Rúz first, the days of Riḍván, the
/// Declaration, Ascension and Martyrdom, the Twin Holy Birthdays, the Day of
/// the Covenant and the Ascension of ‘Abdu’l-Bahá last.
pub proof fn lemma_holy_day_positions()
    ensures
        holy_day_at(0) == Some(HolyDay::NawRuz),
        holy_day_at(1) == Some(HolyDay::Ridvan1st),
        holy_day_at(2) == Some(HolyDay::Ridvan9th),
        holy_day_at(3) == Some(HolyDay::Ridvan12th),
        holy_day_at(4) == Some(HolyDay::DeclarationOfTheBab),
        holy_day_at(5) == Some(HolyDay::AscensionOfBahaullah),
        holy_day_at(6) == Some(HolyDay::MartyrdomOfTheBab),
        holy_day_at(7) == Some(HolyDay::BirthOfTheBab),
        holy_day_at(8) == Some(HolyDay::BirthOfBahaullah),
        holy_day_at(9) == Some(HolyDay::DayOfTheCovenant),
        holy_day_at(10) == Some(HolyDay::AscensionOfAbdulBaha),
        forall|index: u8| index >= 11 ==> holy_day_at(index) is None,
{
}

/// The calendar's position of a holy day names it back.
pub proof fn lemma_holy_day_index_round_trip(holy_day: HolyDay)
    ensures
        holy_day_at(holy_day_index_of(holy_day)) == Some(holy_day),
{
}

pub open spec fn holy_day_emoji_text(holy_day: HolyDay) -> Seq<char> {
    match holy_day {
        HolyDay::NawRuz => "🌺"@,
        HolyDay::Ridvan1st => "🌹"@,
        HolyDay::Ridvan9th => "🌹"@,
        HolyDay::Ridvan12th => "🌹"@,
        HolyDay::DeclarationOfTheBab => "📜"@,
        HolyDay::AscensionOfBahaullah => "⬆️"@,
        HolyDay::MartyrdomOfTheBab => "🕯️"@,
        HolyDay::BirthOfTheBab => "🎂"@,
        HolyDay::BirthOfBahaullah => "🎂"@,
        HolyDay::DayOfTheCovenant => "🤝"@,
        HolyDay::AscensionOfAbdulBaha => "🕊️"@,
    }
}

/// The emoji shown beside a holy day.
pub fn holy_day_emoji(holy_day: HolyDay) -> (emoji: &'static str)
    ensures
        emoji@ == holy_day_emoji_text(holy_day),
{
    match holy_day {
        HolyDay::NawRuz => "🌺",
        HolyDay::Ridvan1st => "🌹",
        HolyDay::Ridvan9th => "🌹",
        HolyDay::Ridvan12th => "🌹",
        HolyDay::DeclarationOfTheBab => "📜",
        HolyDay::AscensionOfBahaullah => "⬆️",
        HolyDay::MartyrdomOfTheBab => "🕯️",
        HolyDay::BirthOfTheBab => "🎂",
        HolyDay::BirthOfBahaullah => "🎂",
        HolyDay::DayOfTheCovenant => "🤝",
        HolyDay::AscensionOfAbdulBaha => "🕊️",
    }
}

pub open spec fn celebration_time_text(holy_day: HolyDay) -> Seq<char> {
    match holy_day {
        HolyDay::NawRuz => "Sunset (start of the Badi day)"@,
        HolyDay::Ridvan1st => "Around 3:00 PM (before sunset)"@,
        HolyDay::Ridvan9th => "Around 3:00 PM (before sunset)"@,
        HolyDay::Ridvan12th => "Around 3:00 PM (before sunset)"@,
        HolyDay::DeclarationOfTheBab => "About 2 hours after sunset"@,
        HolyDay::AscensionOfBahaullah => "Around 3:00 AM"@,
        HolyDay::MartyrdomOfTheBab => "Solar noon (around 12:00 PM)"@,
        HolyDay::BirthOfTheBab => "Sunset (start of the Badi day)"@,
        HolyDay::BirthOfBahaullah => "Sunset (start of the Badi day)"@,
        HolyDay::DayOfTheCovenant => "During the day"@,
        HolyDay::AscensionOfAbdulBaha => "Around 1:00 AM"@,
    }
}

/// The time of day at which a holy day is commemorated.
pub fn celebration_time(holy_day: HolyDay) -> (time: &'static str)
    ensures
        time@ == celebration_time_text(holy_day),
{
    match holy_day {
        HolyDay::NawRuz => "Sunset (start of the Badi day)",
        HolyDay::Ridvan1st => "Around 3:00 PM (before sunset)",
        HolyDay::Ridvan9th => "Around 3:00 PM (before sunset)",
        HolyDay::Ridvan12th => "Around 3:00 PM (before sunset)",
        HolyDay::DeclarationOfTheBab => "About 2 hours after sunset",
        HolyDay::AscensionOfBahaullah => "Around 3:00 AM",
        HolyDay::MartyrdomOfTheBab => "Solar noon (around 12:00 PM)",
        HolyDay::BirthOfTheBab => "Sunset (start of the Badi day)",
        HolyDay::BirthOfBahaullah => "Sunset (start of the Badi day)",
        HolyDay::DayOfTheCovenant => "During the day",
        HolyDay::AscensionOfAbdulBaha => "Around 1:00 AM",
    }
}

/// One of the three days of Riḍván.
pub open spec fn is_ridvan_day(holy_day: HolyDay) -> bool {
    holy_day == HolyDay::Ridvan1st || holy_day == HolyDay::Ridvan9th || holy_day == HolyDay::Ridvan12th
}

/// One of the Twin Holy Birthdays.
pub open spec fn is_twin_birthday(holy_day: HolyDay) -> bool {
    holy_day == HolyDay::BirthOfTheBab || holy_day == HolyDay::BirthOfBahaullah
}

/// Holy days that share an emoji: a day with itself, the three days of
/// Riḍván, and the Twin Holy Birthdays.
pub open spec fn same_emoji_group(a: HolyDay, b: HolyDay) -> bool {
    ||| a == b
    ||| is_ridvan_day(a) && is_ridvan_day(b)
    ||| is_twin_birthday(a) && is_twin_birthday(b)
}

/// The emoji of each holy day: a rose for the days of Riḍván, a cake for the
/// Twin Holy Birthdays, a candle for the Martyrdom of the Báb, a dove for the
/// Ascension of ‘Abdu’l-Bahá.
pub proof fn lemma_holy_day_emoji_table()
    ensures
        holy_day_emoji_text(HolyDay::NawRuz) == "🌺"@,
        holy_day_emoji_text(HolyDay::Ridvan1st) == "🌹"@,
        holy_day_emoji_text(HolyDay::Ridvan9th) == "🌹"@,
        holy_day_emoji_text(HolyDay::Ridvan12th) == "🌹"@,
        holy_day_emoji_text(HolyDay::DeclarationOfTheBab) == "📜"@,
        holy_day_emoji_text(HolyDay::AscensionOfBahaullah) == "⬆️"@,
        holy_day_emoji_text(HolyDay::MartyrdomOfTheBab) == "🕯️"@,
        holy_day_emoji_text(HolyDay::BirthOfTheBab) == "🎂"@,
        holy_day_emoji_text(HolyDay::BirthOfBahaullah) == "🎂"@,
        holy_day_emoji_text(HolyDay::DayOfTheCovenant) == "🤝"@,
        holy_day_emoji_text(HolyDay::AscensionOfAbdulBaha) == "🕊️"@,
{
}

/// Two holy days show the same emoji exactly when both are days of Riḍván
/// or both are Twin Holy Birthdays (or they are the same day).
pub proof fn lemma_emoji_tells_holy_days_apart(a: HolyDay, b: HolyDay)
    ensures
        holy_day_emoji_text(a) == holy_day_emoji_text(b) <==> same_emoji_group(a, b),
{
    reveal_strlit("⬆️");
    reveal_strlit("🌹");
    reveal_strlit("🌺");
    reveal_strlit("🎂");
    reveal_strlit("📜");
    reveal_strlit("🕊️");
    reveal_strlit("🕯️");
    reveal_strlit("🤝");
    assert("⬆️"@ != "🌹"@) by { assert("⬆️"@.len() != "🌹"@.len()); }
    assert("⬆️"@ != "🌺"@) by { assert("⬆️"@.len() != "🌺"@.len()); }
    assert("⬆️"@ != "🎂"@) by { assert("⬆️"@.len() != "🎂"@.len()); }
    assert("⬆️"@ != "📜"@) by { assert("⬆️"@.len() != "📜"@.len()); }
    assert("⬆️"@ != "🕊️"@) by { assert("⬆️"@[0] != "🕊️"@[0]); }
    assert("⬆️"@ != "🕯️"@) by { assert("⬆️"@[0] != "🕯️"@[0]); }
    assert("⬆️"@ != "🤝"@) by { assert("⬆️"@.len() != "🤝"@.len()); }
    assert("🌹"@ != "🌺"@) by { assert("🌹"@[0] != "🌺"@[0]); }
    assert("🌹"@ != "🎂"@) by { assert("🌹"@[0] != "🎂"@[0]); }
    assert("🌹"@ != "📜"@) by { assert("🌹"@[0] != "📜"@[0]); }
    assert("🌹"@ != "🕊️"@) by { assert("🌹"@.len() != "🕊️"@.len()); }
    assert("🌹"@ != "🕯️"@) by { assert("🌹"@.len() != "🕯️"@.len()); }
    assert("🌹"@ != "🤝"@) by { assert("🌹"@[0] != "🤝"@[0]); }
    assert("🌺"@ != "🎂"@) by { assert("🌺"@[0] != "🎂"@[0]); }
    assert("🌺"@ != "📜"@) by { assert("🌺"@[0] != "📜"@[0]); }
    assert("🌺"@ != "🕊️"@) by { assert("🌺"@.len() != "🕊️"@.len()); }
    assert("🌺"@ != "🕯️"@) by { assert("🌺"@.len() != "🕯️"@.len()); }
    assert("🌺"@ != "🤝"@) by { assert("🌺"@[0] != "🤝"@[0]); }
    assert("🎂"@ != "📜"@) by { assert("🎂"@[0] != "📜"@[0]); }
    assert("🎂"@ != "🕊️"@) by { assert("🎂"@.len() != "🕊️"@.len()); }
    assert("🎂"@ != "🕯️"@) by { assert("🎂"@.len() != "🕯️"@.len()); }
    assert("🎂"@ != "🤝"@) by { assert("🎂"@[0] != "🤝"@[0]); }
    assert("📜"@ != "🕊️"@) by { assert("📜"@.len() != "🕊️"@.len()); }
    assert("📜"@ != "🕯️"@) by { assert("📜"@.len() != "🕯️"@.len()); }
    assert("📜"@ != "🤝"@) by { assert("📜"@[0] != "🤝"@[0]); }
    assert("🕊️"@ != "🕯️"@) by { assert("🕊️"@[0] != "🕯️"@[0]); }
    assert("🕊️"@ != "🤝"@) by { assert("🕊️"@.len() != "🤝"@.len()); }
    assert("🕯️"@ != "🤝"@) by { assert("🕯️"@.len() != "🤝"@.len()); }
}

/// Naw-Rúz or one of the Twin Holy Birthdays, which are kept from sunset.
pub open spec fn is_sunset_holy_day(holy_day: HolyDay) -> bool {
    holy_day == HolyDay::NawRuz || is_twin_birthday(holy_day)
}

/// Holy days commemorated at the same hour: a day with itself, the three
/// days of Riḍván (in the afternoon), and Naw-Rúz with the Twin Holy
/// Birthdays (at sunset).
pub open spec fn same_celebration_hour(a: HolyDay, b: HolyDay) -> bool {
    ||| a == b
    ||| is_ridvan_day(a) && is_ridvan_day(b)
    ||| is_sunset_holy_day(a) && is_sunset_holy_day(b)
}

/// The hour at which each holy day is commemorated: the Ascension of
/// Bahá’u’lláh around 3:00 AM, the Ascension of ‘Abdu’l-Bahá around 1:00 AM,
/// the Martyrdom of the Báb at solar noon, the Declaration of the Báb two
/// hours after sunset.
pub proof fn lemma_celebration_time_table()
    ensures
        celebration_time_text(HolyDay::NawRuz) == "Sunset (start of the Badi day)"@,
        celebration_time_text(HolyDay::Ridvan1st) == "Around 3:00 PM (before sunset)"@,
        celebration_time_text(HolyDay::Ridvan9th) == "Around 3:00 PM (before sunset)"@,
        celebration_time_text(HolyDay::Ridvan12th) == "Around 3:00 PM (before sunset)"@,
        celebration_time_text(HolyDay::DeclarationOfTheBab) == "About 2 hours after sunset"@,
        celebration_time_text(HolyDay::AscensionOfBahaullah) == "Around 3:00 AM"@,
        celebration_time_text(HolyDay::MartyrdomOfTheBab) == "Solar noon (around 12:00 PM)"@,
        celebration_time_text(HolyDay::BirthOfTheBab) == "Sunset (start of the Badi day)"@,
        celebration_time_text(HolyDay::BirthOfBahaullah) == "Sunset (start of the Badi day)"@,
        celebration_time_text(HolyDay::DayOfTheCovenant) == "During the day"@,
        celebration_time_text(HolyDay::AscensionOfAbdulBaha) == "Around 1:00 AM"@,
{
}

/// Two holy days are commemorated at the same hour exactly when both are
/// days of Riḍván, or both are among Naw-Rúz and the Twin Holy Birthdays (or
/// they are the same day).
pub proof fn lemma_celebration_time_tells_holy_days_apart(a: HolyDay, b: HolyDay)
    ensures
        celebration_time_text(a) == celebration_time_text(b) <==> same_celebration_hour(a, b),
{
    reveal_strlit("About 2 hours after sunset");
    reveal_strlit("Around 1:00 AM");
    reveal_strlit("Around 3:00 AM");
    reveal_strlit("Around 3:00 PM (before sunset)");
    reveal_strlit("During the day");
    reveal_strlit("Solar noon (around 12:00 PM)");
    reveal_strlit("Sunset (start of the Badi day)");
    assert("About 2 hours after sunset"@ != "Around 1:00 AM"@) by { assert("About 2 hours after sunset"@.len() != "Around 1:00 AM"@.len()); }
    assert("About 2 hours after sunset"@ != "Around 3:00 AM"@) by { assert("About 2 hours after sunset"@.len() != "Around 3:00 AM"@.len()); }
    assert("About 2 hours after sunset"@ != "Around 3:00 PM (before sunset)"@) by { assert("About 2 hours after sunset"@.len() != "Around 3:00 PM (before sunset)"@.len()); }
    assert("About 2 hours after sunset"@ != "During the day"@) by { assert("About 2 hours after sunset"@.len() != "During the day"@.len()); }
    assert("About 2 hours after sunset"@ != "Solar noon (around 12:00 PM)"@) by { assert("About 2 hours after sunset"@.len() != "Solar noon (around 12:00 PM)"@.len()); }
    assert("About 2 hours after sunset"@ != "Sunset (start of the Badi day)"@) by { assert("About 2 hours after sunset"@.len() != "Sunset (start of the Badi day)"@.len()); }
    assert("Around 1:00 AM"@ != "Around 3:00 AM"@) by { assert("Around 1:00 AM"@[7] != "Around 3:00 AM"@[7]); }
    assert("Around 1:00 AM"@ != "Around 3:00 PM (before sunset)"@) by { assert("Around 1:00 AM"@.len() != "Around 3:00 PM (before sunset)"@.len()); }
    assert("Around 1:00 AM"@ != "During the day"@) by { assert("Around 1:00 AM"@[0] != "During the day"@[0]); }
    assert("Around 1:00 AM"@ != "Solar noon (around 12:00 PM)"@) by { assert("Around 1:00 AM"@.len() != "Solar noon (around 12:00 PM)"@.len()); }
    assert("Around 1:00 AM"@ != "Sunset (start of the Badi day)"@) by { assert("Around 1:00 AM"@.len() != "Sunset (start of the Badi day)"@.len()); }
    assert("Around 3:00 AM"@ != "Around 3:00 PM (before sunset)"@) by { assert("Around 3:00 AM"@.len() != "Around 3:00 PM (before sunset)"@.len()); }
    assert("Around 3:00 AM"@ != "During the day"@) by { assert("Around 3:00 AM"@[0] != "During the day"@[0]); }
    assert("Around 3:00 AM"@ != "Solar noon (around 12:00 PM)"@) by { assert("Around 3:00 AM"@.len() != "Solar noon (around 12:00 PM)"@.len()); }
    assert("Around 3:00 AM"@ != "Sunset (start of the Badi day)"@) by { assert("Around 3:00 AM"@.len() != "Sunset (start of the Badi day)"@.len()); }
    assert("Around 3:00 PM (before sunset)"@ != "During the day"@) by { assert("Around 3:00 PM (before sunset)"@.len() != "During the day"@.len()); }
    assert("Around 3:00 PM (before sunset)"@ != "Solar noon (around 12:00 PM)"@) by { assert("Around 3:00 PM (before sunset)"@.len() != "Solar noon (around 12:00 PM)"@.len()); }
    assert("Around 3:00 PM (before sunset)"@ != "Sunset (start of the Badi day)"@) by { assert("Around 3:00 PM (before sunset)"@[0] != "Sunset (start of the Badi day)"@[0]); }
    assert("During the day"@ != "Solar noon (around 12:00 PM)"@) by { assert("During the day"@.len() != "Solar noon (around 12:00 PM)"@.len()); }
    assert("During the day"@ != "Sunset (start of the Badi day)"@) by { assert("During the day"@.len() != "Sunset (start of the Badi day)"@.len()); }
    assert("Solar noon (around 12:00 PM)"@ != "Sunset (start of the Badi day)"@) by { assert("Solar noon (around 12:00 PM)"@.len() != "Sunset (start of the Badi day)"@.len()); }
}

/// The English name of a holy day.
pub open spec fn english_name(holy_day: HolyDay) -> Seq<char> {
    match holy_day {
        HolyDay::NawRuz => "Naw-Rúz"@,
        HolyDay::Ridvan1st => "1st day of Riḍván"@,
        HolyDay::Ridvan9th => "9th day of Riḍván"@,
        HolyDay::Ridvan12th => "12th day of Riḍván"@,
        HolyDay::DeclarationOfTheBab => "Declaration of the Báb"@,
        HolyDay::AscensionOfBahaullah => "Ascension of Bahá’u’lláh"@,
        HolyDay::MartyrdomOfTheBab => "Martyrdom of the Báb"@,
        HolyDay::BirthOfTheBab => "Birth of the Báb"@,
        HolyDay::BirthOfBahaullah => "Birth of Bahá’u’lláh"@,
        HolyDay::DayOfTheCovenant => "Day of the Covenant"@,
        HolyDay::AscensionOfAbdulBaha => "Ascension of ‘Abdu’l-Bahá"@,
    }
}

/// The English name of a holy day, as shown in listings and notes.
pub fn holy_day_name(holy_day: HolyDay) -> (name: String)
    ensures
        name@ == english_name(holy_day),
{
    holy_day_english(holy_day)
}

/// Work is suspended on nine of the holy days; the Day of the Covenant and
/// the Ascension of ‘Abdu’l-Bahá are observed without suspending it.
pub open spec fn work_is_suspended(holy_day: HolyDay) -> bool {
    holy_day != HolyDay::DayOfTheCovenant && holy_day != HolyDay::AscensionOfAbdulBaha
}

pub fn work_suspended(holy_day: HolyDay) -> (suspended: bool)
    ensures
        suspended == work_is_suspended(holy_day),
        !suspended <==> (holy_day == HolyDay::DayOfTheCovenant || holy_day == HolyDay::AscensionOfAbdulBaha),
{
    match holy_day {
        HolyDay::DayOfTheCovenant | HolyDay::AscensionOfAbdulBaha => false,
        _ => true,
    }
}

pub open spec fn work_status_text(suspended: bool) -> Seq<char> {
    if suspended { "work suspended"@ } else { "observance"@ }
}

/// How a holy day is observed, as the listing words it.
pub fn work_status(suspended: bool) -> (status: &'static str)
    ensures
        status@ == work_status_text(suspended),
        suspended ==> status@ == "work suspended"@,
        !suspended ==> status@ == "observance"@,
{
    if suspended { "work suspended" } else { "observance" }
}

/// The day of the year on which the holy days whose date does not move with
/// the moon fall; the Twin Holy Birthdays have no fixed day.
pub open spec fn fixed_day_of_year(holy_day: HolyDay) -> Option<u16> {
    match holy_day {
        HolyDay::NawRuz => Some(1),
        HolyDay::Ridvan1st => Some(32),
        HolyDay::Ridvan9th => Some(40),
        HolyDay::Ridvan12th => Some(43),
        HolyDay::DeclarationOfTheBab => Some(65),
        HolyDay::AscensionOfBahaullah => Some(70),
        HolyDay::MartyrdomOfTheBab => Some(112),
        HolyDay::BirthOfTheBab => None,
        HolyDay::BirthOfBahaullah => None,
        HolyDay::DayOfTheCovenant => Some(251),
        HolyDay::AscensionOfAbdulBaha => Some(253),
    }
}

/// Some holy day of `year` falls on `day_of_year`.
pub open spec fn holy_day_in(year: u8, day_of_year: int) -> bool {
    exists|holy_day: HolyDay| #[trigger] holy_day_doy(holy_day, year) == day_of_year
}

/// Some holy day of `year` falls after `day_of_year`.
pub open spec fn holy_day_after(year: u8, day_of_year: int) -> bool {
    exists|holy_day: HolyDay| #[trigger] holy_day_doy(holy_day, year) > day_of_year
}

/// `day_of_year` is the first day after `after` on which a holy day of
/// `year` falls: one falls on it, and none falls between.
pub open spec fn first_holy_day_after(year: u8, after: int, day_of_year: int) -> bool {
    &&& after < day_of_year
    &&& holy_day_in(year, day_of_year)
    &&& forall|holy_day: HolyDay|
        #[trigger] holy_day_doy(holy_day, year) > after ==> holy_day_doy(holy_day, year) >= day_of_year
}

/// Work is suspended on nine of the eleven holy days: all but the Day of the
/// Covenant and the Ascension of ‘Abdu’l-Bahá.
pub proof fn lemma_work_suspended_on_nine(holy_day: HolyDay)
    ensures
        !work_is_suspended(holy_day) <==> (holy_day == HolyDay::DayOfTheCovenant || holy_day
            == HolyDay::AscensionOfAbdulBaha),
        all_holy_days_seq().filter(|h: HolyDay| work_is_suspended(h)).len() == 9,
{
    reveal_with_fuel(Seq::filter, 12);
}

/// All eleven holy days in the calendar's order.
pub open spec fn all_holy_days_seq() -> Seq<HolyDay> {
    seq![HolyDay::NawRuz, HolyDay::Ridvan1st, HolyDay::Ridvan9th, HolyDay::Ridvan12th, HolyDay::DeclarationOfTheBab, HolyDay::AscensionOfBahaullah, HolyDay::MartyrdomOfTheBab, HolyDay::BirthOfTheBab, HolyDay::BirthOfBahaullah, HolyDay::DayOfTheCovenant, HolyDay::AscensionOfAbdulBaha]
}

/// Every holy day stands in the calendar's list at its own position.
pub proof fn lemma_all_holy_days_lists_each(holy_day: HolyDay)
    ensures
        all_holy_days_seq().len() == 11,
        holy_day_index_of(holy_day) < all_holy_days_seq().len(),
        all_holy_days_seq()[holy_day_index_of(holy_day) as int] == holy_day,
{
}

pub fn all_holy_days() -> (holy_days: Vec<HolyDay>)
    ensures
        holy_days@ == all_holy_days_seq(),
{
    let mut holy_days: Vec<HolyDay> = Vec::new();
    holy_days.push(HolyDay::NawRuz);
    holy_days.push(HolyDay::Ridvan1st);
    holy_days.push(HolyDay::Ridvan9th);
    holy_days.push(HolyDay::Ridvan12th);
    holy_days.push(HolyDay::DeclarationOfTheBab);
    holy_days.push(HolyDay::AscensionOfBahaullah);
    holy_days.push(HolyDay::MartyrdomOfTheBab);
    holy_days.push(HolyDay::BirthOfTheBab);
    holy_days.push(HolyDay::BirthOfBahaullah);
    holy_days.push(HolyDay::DayOfTheCovenant);
    holy_days.push(HolyDay::AscensionOfAbdulBaha);
    assert(holy_days@ =~= all_holy_days_seq());
    holy_days
}

} // verus!
