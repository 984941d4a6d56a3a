//! Text the converter reads and shows: month emoji, the names of months,
//! the views and countdowns asked for by name, time-zone names and progress
//! bars.
use vstd::prelude::*;
use vstd::string::*;

use crate::calendar::{BadiMonth, month_is_valid};

verus! {

/// Two texts hold the same characters.
pub fn same_text(a: &str, b: &str) -> (same: bool)
    ensures
        same == (a@ == b@),
{
    let length = a.unicode_len();
    if length != b.unicode_len() {
        return false;
    }
    let mut i: usize = 0;
    while i < length
        invariant
            length == a@.len(),
            length == b@.len(),
            i <= length,
            forall|k: int| 0 <= k < i ==> a@[k] == b@[k],
        decreases length - i,
    {
        if a.get_char(i) != b.get_char(i) {
            assert(a@[i as int] != b@[i as int]);
            return false;
        }
        i = i + 1;
    }
    assert(a@ =~= b@);
    true
}

/// The emoji shown beside a month, chosen by the month's transliterated
/// name; a name outside the list gets a calendar.
pub open spec fn month_emoji_text(name: Seq<char>) -> Seq<char> {
    if name == "Bahá"@ {
        "✨"@
    } else if name == "Jalál"@ {
        "🌟"@
    } else if name == "Jamál"@ {
        "🌸"@
    } else if name == "Azamat"@ {
        "🏛️"@
    } else if name == "Núr"@ {
        "💡"@
    } else if name == "Rahmat"@ {
        "🤲"@
    } else if name == "Kalimát"@ {
        "📖"@
    } else if name == "Kamál"@ {
        "🎭"@
    } else if name == "Asmá"@ {
        "📛"@
    } else if name == "Izzat"@ {
        "💪"@
    } else if name == "Mashíyyat"@ {
        "🎯"@
    } else if name == "Ilm"@ {
        "📚"@
    } else if name == "Qudrat"@ {
        "⚡"@
    } else if name == "Qawl"@ {
        "💬"@
    } else if name == "Masá'il"@ {
        "❓"@
    } else if name == "Sharaf"@ {
        "🏅"@
    } else if name == "Sultán"@ {
        "👑"@
    } else if name == "Mulk"@ {
        "🌍"@
    } else if name == "Alá"@ {
        "🕊️"@
    } else if name == "Ayyám-i-Há"@ || name == "Ayyam-i-Ha"@ {
        "🎉"@
    } else {
        "📅"@
    }
}

pub fn month_emoji(name: &str) -> (emoji: &'static str)
    ensures
        emoji@ == month_emoji_text(name@),
{
    if same_text(name, "Bahá") {
        "✨"
    } else if same_text(name, "Jalál") {
        "🌟"
    } else if same_text(name, "Jamál") {
        "🌸"
    } else if same_text(name, "Azamat") {
        "🏛️"
    } else if same_text(name, "Núr") {
        "💡"
    } else if same_text(name, "Rahmat") {
        "🤲"
    } else if same_text(name, "Kalimát") {
        "📖"
    } else if same_text(name, "Kamál") {
        "🎭"
    } else if same_text(name, "Asmá") {
        "📛"
    } else if same_text(name, "Izzat") {
        "💪"
    } else if same_text(name, "Mashíyyat") {
        "🎯"
    } else if same_text(name, "Ilm") {
        "📚"
    } else if same_text(name, "Qudrat") {
        "⚡"
    } else if same_text(name, "Qawl") {
        "💬"
    } else if same_text(name, "Masá'il") {
        "❓"
    } else if same_text(name, "Sharaf") {
        "🏅"
    } else if same_text(name, "Sultán") {
        "👑"
    } else if same_text(name, "Mulk") {
        "🌍"
    } else if same_text(name, "Alá") {
        "🕊️"
    } else if same_text(name, "Ayyám-i-Há") || same_text(name, "Ayyam-i-Ha") {
        "🎉"
    } else {
        "📅"
    }
}

/// The emoji of each month name the list spells out: a sparkle for Bahá, a
/// star for Jalál, a blossom for Jamál, and so on to a dove for Alá and a
/// party popper for Ayyám-i-Há in either spelling.
pub proof fn lemma_month_emoji_table()
    ensures
        month_emoji_text("Bahá"@) == "✨"@,
        month_emoji_text("Jalál"@) == "🌟"@,
        month_emoji_text("Jamál"@) == "🌸"@,
        month_emoji_text("Azamat"@) == "🏛️"@,
        month_emoji_text("Núr"@) == "💡"@,
        month_emoji_text("Rahmat"@) == "🤲"@,
        month_emoji_text("Kalimát"@) == "📖"@,
        month_emoji_text("Kamál"@) == "🎭"@,
        month_emoji_text("Asmá"@) == "📛"@,
        month_emoji_text("Izzat"@) == "💪"@,
        month_emoji_text("Mashíyyat"@) == "🎯"@,
        month_emoji_text("Ilm"@) == "📚"@,
        month_emoji_text("Qudrat"@) == "⚡"@,
        month_emoji_text("Qawl"@) == "💬"@,
        month_emoji_text("Masá'il"@) == "❓"@,
        month_emoji_text("Sharaf"@) == "🏅"@,
        month_emoji_text("Sultán"@) == "👑"@,
        month_emoji_text("Mulk"@) == "🌍"@,
        month_emoji_text("Alá"@) == "🕊️"@,
        month_emoji_text("Ayyám-i-Há"@) == "🎉"@,
        month_emoji_text("Ayyam-i-Ha"@) == "🎉"@,
{
    reveal_strlit("Bahá");
    reveal_strlit("Jalál");
    reveal_strlit("Jamál");
    reveal_strlit("Azamat");
    reveal_strlit("Núr");
    reveal_strlit("Rahmat");
    reveal_strlit("Kalimát");
    reveal_strlit("Kamál");
    reveal_strlit("Asmá");
    reveal_strlit("Izzat");
    reveal_strlit("Mashíyyat");
    reveal_strlit("Ilm");
    reveal_strlit("Qudrat");
    reveal_strlit("Qawl");
    reveal_strlit("Masá'il");
    reveal_strlit("Sharaf");
    reveal_strlit("Sultán");
    reveal_strlit("Mulk");
    reveal_strlit("Alá");
    reveal_strlit("Ayyám-i-Há");
    reveal_strlit("Ayyam-i-Ha");
    assert("Jalál"@ != "Bahá"@) by { assert("Jalál"@.len() != "Bahá"@.len()); }
    assert("Jamál"@ != "Bahá"@) by { assert("Jamál"@.len() != "Bahá"@.len()); }
    assert("Jamál"@ != "Jalál"@) by { assert("Jamál"@[2] != "Jalál"@[2]); }
    assert("Azamat"@ != "Bahá"@) by { assert("Azamat"@.len() != "Bahá"@.len()); }
    assert("Azamat"@ != "Jalál"@) by { assert("Azamat"@.len() != "Jalál"@.len()); }
    assert("Azamat"@ != "Jamál"@) by { assert("Azamat"@.len() != "Jamál"@.len()); }
    assert("Núr"@ != "Bahá"@) by { assert("Núr"@.len() != "Bahá"@.len()); }
    assert("Núr"@ != "Jalál"@) by { assert("Núr"@.len() != "Jalál"@.len()); }
    assert("Núr"@ != "Jamál"@) by { assert("Núr"@.len() != "Jamál"@.len()); }
    assert("Núr"@ != "Azamat"@) by { assert("Núr"@.len() != "Azamat"@.len()); }
    assert("Rahmat"@ != "Bahá"@) by { assert("Rahmat"@.len() != "Bahá"@.len()); }
    assert("Rahmat"@ != "Jalál"@) by { assert("Rahmat"@.len() != "Jalál"@.len()); }
    assert("Rahmat"@ != "Jamál"@) by { assert("Rahmat"@.len() != "Jamál"@.len()); }
    assert("Rahmat"@ != "Azamat"@) by { assert("Rahmat"@[0] != "Azamat"@[0]); }
    assert("Rahmat"@ != "Núr"@) by { assert("Rahmat"@.len() != "Núr"@.len()); }
    assert("Kalimát"@ != "Bahá"@) by { assert("Kalimát"@.len() != "Bahá"@.len()); }
    assert("Kalimát"@ != "Jalál"@) by { assert("Kalimát"@.len() != "Jalál"@.len()); }
    assert("Kalimát"@ != "Jamál"@) by { assert("Kalimát"@.len() != "Jamál"@.len()); }
    assert("Kalimát"@ != "Azamat"@) by { assert("Kalimát"@.len() != "Azamat"@.len()); }
    assert("Kalimát"@ != "Núr"@) by { assert("Kalimát"@.len() != "Núr"@.len()); }
    assert("Kalimát"@ != "Rahmat"@) by { assert("Kalimát"@.len() != "Rahmat"@.len()); }
    assert("Kamál"@ != "Bahá"@) by { assert("Kamál"@.len() != "Bahá"@.len()); }
    assert("Kamál"@ != "Jalál"@) by { assert("Kamál"@[0] != "Jalál"@[0]); }
    assert("Kamál"@ != "Jamál"@) by { assert("Kamál"@[0] != "Jamál"@[0]); }
    assert("Kamál"@ != "Azamat"@) by { assert("Kamál"@.len() != "Azamat"@.len()); }
    assert("Kamál"@ != "Núr"@) by { assert("Kamál"@.len() != "Núr"@.len()); }
    assert("Kamál"@ != "Rahmat"@) by { assert("Kamál"@.len() != "Rahmat"@.len()); }
    assert("Kamál"@ != "Kalimát"@) by { assert("Kamál"@.len() != "Kalimát"@.len()); }
    assert("Asmá"@ != "Bahá"@) by { assert("Asmá"@[0] != "Bahá"@[0]); }
    assert("Asmá"@ != "Jalál"@) by { assert("Asmá"@.len() != "Jalál"@.len()); }
    assert("Asmá"@ != "Jamál"@) by { assert("Asmá"@.len() != "Jamál"@.len()); }
    assert("Asmá"@ != "Azamat"@) by { assert("Asmá"@.len() != "Azamat"@.len()); }
    assert("Asmá"@ != "Núr"@) by { assert("Asmá"@.len() != "Núr"@.len()); }
    assert("Asmá"@ != "Rahmat"@) by { assert("Asmá"@.len() != "Rahmat"@.len()); }
    assert("Asmá"@ != "Kalimát"@) by { assert("Asmá"@.len() != "Kalimát"@.len()); }
    assert("Asmá"@ != "Kamál"@) by { assert("Asmá"@.len() != "Kamál"@.len()); }
    assert("Izzat"@ != "Bahá"@) by { assert("Izzat"@.len() != "Bahá"@.len()); }
    assert("Izzat"@ != "Jalál"@) by { assert("Izzat"@[0] != "Jalál"@[0]); }
    assert("Izzat"@ != "Jamál"@) by { assert("Izzat"@[0] != "Jamál"@[0]); }
    assert("Izzat"@ != "Azamat"@) by { assert("Izzat"@.len() != "Azamat"@.len()); }
    assert("Izzat"@ != "Núr"@) by { assert("Izzat"@.len() != "Núr"@.len()); }
    assert("Izzat"@ != "Rahmat"@) by { assert("Izzat"@.len() != "Rahmat"@.len()); }
    assert("Izzat"@ != "Kalimát"@) by { assert("Izzat"@.len() != "Kalimát"@.len()); }
    assert("Izzat"@ != "Kamál"@) by { assert("Izzat"@[0] != "Kamál"@[0]); }
    assert("Izzat"@ != "Asmá"@) by { assert("Izzat"@.len() != "Asmá"@.len()); }
    assert("Mashíyyat"@ != "Bahá"@) by { assert("Mashíyyat"@.len() != "Bahá"@.len()); }
    assert("Mashíyyat"@ != "Jalál"@) by { assert("Mashíyyat"@.len() != "Jalál"@.len()); }
    assert("Mashíyyat"@ != "Jamál"@) by { assert("Mashíyyat"@.len() != "Jamál"@.len()); }
    assert("Mashíyyat"@ != "Azamat"@) by { assert("Mashíyyat"@.len() != "Azamat"@.len()); }
    assert("Mashíyyat"@ != "Núr"@) by { assert("Mashíyyat"@.len() != "Núr"@.len()); }
    assert("Mashíyyat"@ != "Rahmat"@) by { assert("Mashíyyat"@.len() != "Rahmat"@.len()); }
    assert("Mashíyyat"@ != "Kalimát"@) by { assert("Mashíyyat"@.len() != "Kalimát"@.len()); }
    assert("Mashíyyat"@ != "Kamál"@) by { assert("Mashíyyat"@.len() != "Kamál"@.len()); }
    assert("Mashíyyat"@ != "Asmá"@) by { assert("Mashíyyat"@.len() != "Asmá"@.len()); }
    assert("Mashíyyat"@ != "Izzat"@) by { assert("Mashíyyat"@.len() != "Izzat"@.len()); }
    assert("Ilm"@ != "Bahá"@) by { assert("Ilm"@.len() != "Bahá"@.len()); }
    assert("Ilm"@ != "Jalál"@) by { assert("Ilm"@.len() != "Jalál"@.len()); }
    assert("Ilm"@ != "Jamál"@) by { assert("Ilm"@.len() != "Jamál"@.len()); }
    assert("Ilm"@ != "Azamat"@) by { assert("Ilm"@.len() != "Azamat"@.len()); }
    assert("Ilm"@ != "Núr"@) by { assert("Ilm"@[0] != "Núr"@[0]); }
    assert("Ilm"@ != "Rahmat"@) by { assert("Ilm"@.len() != "Rahmat"@.len()); }
    assert("Ilm"@ != "Kalimát"@) by { assert("Ilm"@.len() != "Kalimát"@.len()); }
    assert("Ilm"@ != "Kamál"@) by { assert("Ilm"@.len() != "Kamál"@.len()); }
    assert("Ilm"@ != "Asmá"@) by { assert("Ilm"@.len() != "Asmá"@.len()); }
    assert("Ilm"@ != "Izzat"@) by { assert("Ilm"@.len() != "Izzat"@.len()); }
    assert("Ilm"@ != "Mashíyyat"@) by { assert("Ilm"@.len() != "Mashíyyat"@.len()); }
    assert("Qudrat"@ != "Bahá"@) by { assert("Qudrat"@.len() != "Bahá"@.len()); }
    assert("Qudrat"@ != "Jalál"@) by { assert("Qudrat"@.len() != "Jalál"@.len()); }
    assert("Qudrat"@ != "Jamál"@) by { assert("Qudrat"@.len() != "Jamál"@.len()); }
    assert("Qudrat"@ != "Azamat"@) by { assert("Qudrat"@[0] != "Azamat"@[0]); }
    assert("Qudrat"@ != "Núr"@) by { assert("Qudrat"@.len() != "Núr"@.len()); }
    assert("Qudrat"@ != "Rahmat"@) by { assert("Qudrat"@[0] != "Rahmat"@[0]); }
    assert("Qudrat"@ != "Kalimát"@) by { assert("Qudrat"@.len() != "Kalimát"@.len()); }
    assert("Qudrat"@ != "Kamál"@) by { assert("Qudrat"@.len() != "Kamál"@.len()); }
    assert("Qudrat"@ != "Asmá"@) by { assert("Qudrat"@.len() != "Asmá"@.len()); }
    assert("Qudrat"@ != "Izzat"@) by { assert("Qudrat"@.len() != "Izzat"@.len()); }
    assert("Qudrat"@ != "Mashíyyat"@) by { assert("Qudrat"@.len() != "Mashíyyat"@.len()); }
    assert("Qudrat"@ != "Ilm"@) by { assert("Qudrat"@.len() != "Ilm"@.len()); }
    assert("Qawl"@ != "Bahá"@) by { assert("Qawl"@[0] != "Bahá"@[0]); }
    assert("Qawl"@ != "Jalál"@) by { assert("Qawl"@.len() != "Jalál"@.len()); }
    assert("Qawl"@ != "Jamál"@) by { assert("Qawl"@.len() != "Jamál"@.len()); }
    assert("Qawl"@ != "Azamat"@) by { assert("Qawl"@.len() != "Azamat"@.len()); }
    assert("Qawl"@ != "Núr"@) by { assert("Qawl"@.len() != "Núr"@.len()); }
    assert("Qawl"@ != "Rahmat"@) by { assert("Qawl"@.len() != "Rahmat"@.len()); }
    assert("Qawl"@ != "Kalimát"@) by { assert("Qawl"@.len() != "Kalimát"@.len()); }
    assert("Qawl"@ != "Kamál"@) by { assert("Qawl"@.len() != "Kamál"@.len()); }
    assert("Qawl"@ != "Asmá"@) by { assert("Qawl"@[0] != "Asmá"@[0]); }
    assert("Qawl"@ != "Izzat"@) by { assert("Qawl"@.len() != "Izzat"@.len()); }
    assert("Qawl"@ != "Mashíyyat"@) by { assert("Qawl"@.len() != "Mashíyyat"@.len()); }
    assert("Qawl"@ != "Ilm"@) by { assert("Qawl"@.len() != "Ilm"@.len()); }
    assert("Qawl"@ != "Qudrat"@) by { assert("Qawl"@.len() != "Qudrat"@.len()); }
    assert("Masá'il"@ != "Bahá"@) by { assert("Masá'il"@.len() != "Bahá"@.len()); }
    assert("Masá'il"@ != "Jalál"@) by { assert("Masá'il"@.len() != "Jalál"@.len()); }
    assert("Masá'il"@ != "Jamál"@) by { assert("Masá'il"@.len() != "Jamál"@.len()); }
    assert("Masá'il"@ != "Azamat"@) by { assert("Masá'il"@.len() != "Azamat"@.len()); }
    assert("Masá'il"@ != "Núr"@) by { assert("Masá'il"@.len() != "Núr"@.len()); }
    assert("Masá'il"@ != "Rahmat"@) by { assert("Masá'il"@.len() != "Rahmat"@.len()); }
    assert("Masá'il"@ != "Kalimát"@) by { assert("Masá'il"@[0] != "Kalimát"@[0]); }
    assert("Masá'il"@ != "Kamál"@) by { assert("Masá'il"@.len() != "Kamál"@.len()); }
    assert("Masá'il"@ != "Asmá"@) by { assert("Masá'il"@.len() != "Asmá"@.len()); }
    assert("Masá'il"@ != "Izzat"@) by { assert("Masá'il"@.len() != "Izzat"@.len()); }
    assert("Masá'il"@ != "Mashíyyat"@) by { assert("Masá'il"@.len() != "Mashíyyat"@.len()); }
    assert("Masá'il"@ != "Ilm"@) by { assert("Masá'il"@.len() != "Ilm"@.len()); }
    assert("Masá'il"@ != "Qudrat"@) by { assert("Masá'il"@.len() != "Qudrat"@.len()); }
    assert("Masá'il"@ != "Qawl"@) by { assert("Masá'il"@.len() != "Qawl"@.len()); }
    assert("Sharaf"@ != "Bahá"@) by { assert("Sharaf"@.len() != "Bahá"@.len()); }
    assert("Sharaf"@ != "Jalál"@) by { assert("Sharaf"@.len() != "Jalál"@.len()); }
    assert("Sharaf"@ != "Jamál"@) by { assert("Sharaf"@.len() != "Jamál"@.len()); }
    assert("Sharaf"@ != "Azamat"@) by { assert("Sharaf"@[0] != "Azamat"@[0]); }
    assert("Sharaf"@ != "Núr"@) by { assert("Sharaf"@.len() != "Núr"@.len()); }
    assert("Sharaf"@ != "Rahmat"@) by { assert("Sharaf"@[0] != "Rahmat"@[0]); }
    assert("Sharaf"@ != "Kalimát"@) by { assert("Sharaf"@.len() != "Kalimát"@.len()); }
    assert("Sharaf"@ != "Kamál"@) by { assert("Sharaf"@.len() != "Kamál"@.len()); }
    assert("Sharaf"@ != "Asmá"@) by { assert("Sharaf"@.len() != "Asmá"@.len()); }
    assert("Sharaf"@ != "Izzat"@) by { assert("Sharaf"@.len() != "Izzat"@.len()); }
    assert("Sharaf"@ != "Mashíyyat"@) by { assert("Sharaf"@.len() != "Mashíyyat"@.len()); }
    assert("Sharaf"@ != "Ilm"@) by { assert("Sharaf"@.len() != "Ilm"@.len()); }
    assert("Sharaf"@ != "Qudrat"@) by { assert("Sharaf"@[0] != "Qudrat"@[0]); }
    assert("Sharaf"@ != "Qawl"@) by { assert("Sharaf"@.len() != "Qawl"@.len()); }
    assert("Sharaf"@ != "Masá'il"@) by { assert("Sharaf"@.len() != "Masá'il"@.len()); }
    assert("Sultán"@ != "Bahá"@) by { assert("Sultán"@.len() != "Bahá"@.len()); }
    assert("Sultán"@ != "Jalál"@) by { assert("Sultán"@.len() != "Jalál"@.len()); }
    assert("Sultán"@ != "Jamál"@) by { assert("Sultán"@.len() != "Jamál"@.len()); }
    assert("Sultán"@ != "Azamat"@) by { assert("Sultán"@[0] != "Azamat"@[0]); }
    assert("Sultán"@ != "Núr"@) by { assert("Sultán"@.len() != "Núr"@.len()); }
    assert("Sultán"@ != "Rahmat"@) by { assert("Sultán"@[0] != "Rahmat"@[0]); }
    assert("Sultán"@ != "Kalimát"@) by { assert("Sultán"@.len() != "Kalimát"@.len()); }
    assert("Sultán"@ != "Kamál"@) by { assert("Sultán"@.len() != "Kamál"@.len()); }
    assert("Sultán"@ != "Asmá"@) by { assert("Sultán"@.len() != "Asmá"@.len()); }
    assert("Sultán"@ != "Izzat"@) by { assert("Sultán"@.len() != "Izzat"@.len()); }
    assert("Sultán"@ != "Mashíyyat"@) by { assert("Sultán"@.len() != "Mashíyyat"@.len()); }
    assert("Sultán"@ != "Ilm"@) by { assert("Sultán"@.len() != "Ilm"@.len()); }
    assert("Sultán"@ != "Qudrat"@) by { assert("Sultán"@[0] != "Qudrat"@[0]); }
    assert("Sultán"@ != "Qawl"@) by { assert("Sultán"@.len() != "Qawl"@.len()); }
    assert("Sultán"@ != "Masá'il"@) by { assert("Sultán"@.len() != "Masá'il"@.len()); }
    assert("Sultán"@ != "Sharaf"@) by { assert("Sultán"@[1] != "Sharaf"@[1]); }
    assert("Mulk"@ != "Bahá"@) by { assert("Mulk"@[0] != "Bahá"@[0]); }
    assert("Mulk"@ != "Jalál"@) by { assert("Mulk"@.len() != "Jalál"@.len()); }
    assert("Mulk"@ != "Jamál"@) by { assert("Mulk"@.len() != "Jamál"@.len()); }
    assert("Mulk"@ != "Azamat"@) by { assert("Mulk"@.len() != "Azamat"@.len()); }
    assert("Mulk"@ != "Núr"@) by { assert("Mulk"@.len() != "Núr"@.len()); }
    assert("Mulk"@ != "Rahmat"@) by { assert("Mulk"@.len() != "Rahmat"@.len()); }
    assert("Mulk"@ != "Kalimát"@) by { assert("Mulk"@.len() != "Kalimát"@.len()); }
    assert("Mulk"@ != "Kamál"@) by { assert("Mulk"@.len() != "Kamál"@.len()); }
    assert("Mulk"@ != "Asmá"@) by { assert("Mulk"@[0] != "Asmá"@[0]); }
    assert("Mulk"@ != "Izzat"@) by { assert("Mulk"@.len() != "Izzat"@.len()); }
    assert("Mulk"@ != "Mashíyyat"@) by { assert("Mulk"@.len() != "Mashíyyat"@.len()); }
    assert("Mulk"@ != "Ilm"@) by { assert("Mulk"@.len() != "Ilm"@.len()); }
    assert("Mulk"@ != "Qudrat"@) by { assert("Mulk"@.len() != "Qudrat"@.len()); }
    assert("Mulk"@ != "Qawl"@) by { assert("Mulk"@[0] != "Qawl"@[0]); }
    assert("Mulk"@ != "Masá'il"@) by { assert("Mulk"@.len() != "Masá'il"@.len()); }
    assert("Mulk"@ != "Sharaf"@) by { assert("Mulk"@.len() != "Sharaf"@.len()); }
    assert("Mulk"@ != "Sultán"@) by { assert("Mulk"@.len() != "Sultán"@.len()); }
    assert("Alá"@ != "Bahá"@) by { assert("Alá"@.len() != "Bahá"@.len()); }
    assert("Alá"@ != "Jalál"@) by { assert("Alá"@.len() != "Jalál"@.len()); }
    assert("Alá"@ != "Jamál"@) by { assert("Alá"@.len() != "Jamál"@.len()); }
    assert("Alá"@ != "Azamat"@) by { assert("Alá"@.len() != "Azamat"@.len()); }
    assert("Alá"@ != "Núr"@) by { assert("Alá"@[0] != "Núr"@[0]); }
    assert("Alá"@ != "Rahmat"@) by { assert("Alá"@.len() != "Rahmat"@.len()); }
    assert("Alá"@ != "Kalimát"@) by { assert("Alá"@.len() != "Kalimát"@.len()); }
    assert("Alá"@ != "Kamál"@) by { assert("Alá"@.len() != "Kamál"@.len()); }
    assert("Alá"@ != "Asmá"@) by { assert("Alá"@.len() != "Asmá"@.len()); }
    assert("Alá"@ != "Izzat"@) by { assert("Alá"@.len() != "Izzat"@.len()); }
    assert("Alá"@ != "Mashíyyat"@) by { assert("Alá"@.len() != "Mashíyyat"@.len()); }
    assert("Alá"@ != "Ilm"@) by { assert("Alá"@[0] != "Ilm"@[0]); }
    assert("Alá"@ != "Qudrat"@) by { assert("Alá"@.len() != "Qudrat"@.len()); }
    assert("Alá"@ != "Qawl"@) by { assert("Alá"@.len() != "Qawl"@.len()); }
    assert("Alá"@ != "Masá'il"@) by { assert("Alá"@.len() != "Masá'il"@.len()); }
    assert("Alá"@ != "Sharaf"@) by { assert("Alá"@.len() != "Sharaf"@.len()); }
    assert("Alá"@ != "Sultán"@) by { assert("Alá"@.len() != "Sultán"@.len()); }
    assert("Alá"@ != "Mulk"@) by { assert("Alá"@.len() != "Mulk"@.len()); }
    assert("Ayyám-i-Há"@ != "Bahá"@) by { assert("Ayyám-i-Há"@.len() != "Bahá"@.len()); }
    assert("Ayyám-i-Há"@ != "Jalál"@) by { assert("Ayyám-i-Há"@.len() != "Jalál"@.len()); }
    assert("Ayyám-i-Há"@ != "Jamál"@) by { assert("Ayyám-i-Há"@.len() != "Jamál"@.len()); }
    assert("Ayyám-i-Há"@ != "Azamat"@) by { assert("Ayyám-i-Há"@.len() != "Azamat"@.len()); }
    assert("Ayyám-i-Há"@ != "Núr"@) by { assert("Ayyám-i-Há"@.len() != "Núr"@.len()); }
    assert("Ayyám-i-Há"@ != "Rahmat"@) by { assert("Ayyám-i-Há"@.len() != "Rahmat"@.len()); }
    assert("Ayyám-i-Há"@ != "Kalimát"@) by { assert("Ayyám-i-Há"@.len() != "Kalimát"@.len()); }
    assert("Ayyám-i-Há"@ != "Kamál"@) by { assert("Ayyám-i-Há"@.len() != "Kamál"@.len()); }
    assert("Ayyám-i-Há"@ != "Asmá"@) by { assert("Ayyám-i-Há"@.len() != "Asmá"@.len()); }
    assert("Ayyám-i-Há"@ != "Izzat"@) by { assert("Ayyám-i-Há"@.len() != "Izzat"@.len()); }
    assert("Ayyám-i-Há"@ != "Mashíyyat"@) by { assert("Ayyám-i-Há"@.len() != "Mashíyyat"@.len()); }
    assert("Ayyám-i-Há"@ != "Ilm"@) by { assert("Ayyám-i-Há"@.len() != "Ilm"@.len()); }
    assert("Ayyám-i-Há"@ != "Qudrat"@) by { assert("Ayyám-i-Há"@.len() != "Qudrat"@.len()); }
    assert("Ayyám-i-Há"@ != "Qawl"@) by { assert("Ayyám-i-Há"@.len() != "Qawl"@.len()); }
    assert("Ayyám-i-Há"@ != "Masá'il"@) by { assert("Ayyám-i-Há"@.len() != "Masá'il"@.len()); }
    assert("Ayyám-i-Há"@ != "Sharaf"@) by { assert("Ayyám-i-Há"@.len() != "Sharaf"@.len()); }
    assert("Ayyám-i-Há"@ != "Sultán"@) by { assert("Ayyám-i-Há"@.len() != "Sultán"@.len()); }
    assert("Ayyám-i-Há"@ != "Mulk"@) by { assert("Ayyám-i-Há"@.len() != "Mulk"@.len()); }
    assert("Ayyám-i-Há"@ != "Alá"@) by { assert("Ayyám-i-Há"@.len() != "Alá"@.len()); }
    assert("Ayyam-i-Ha"@ != "Bahá"@) by { assert("Ayyam-i-Ha"@.len() != "Bahá"@.len()); }
    assert("Ayyam-i-Ha"@ != "Jalál"@) by { assert("Ayyam-i-Ha"@.len() != "Jalál"@.len()); }
    assert("Ayyam-i-Ha"@ != "Jamál"@) by { assert("Ayyam-i-Ha"@.len() != "Jamál"@.len()); }
    assert("Ayyam-i-Ha"@ != "Azamat"@) by { assert("Ayyam-i-Ha"@.len() != "Azamat"@.len()); }
    assert("Ayyam-i-Ha"@ != "Núr"@) by { assert("Ayyam-i-Ha"@.len() != "Núr"@.len()); }
    assert("Ayyam-i-Ha"@ != "Rahmat"@) by { assert("Ayyam-i-Ha"@.len() != "Rahmat"@.len()); }
    assert("Ayyam-i-Ha"@ != "Kalimát"@) by { assert("Ayyam-i-Ha"@.len() != "Kalimát"@.len()); }
    assert("Ayyam-i-Ha"@ != "Kamál"@) by { assert("Ayyam-i-Ha"@.len() != "Kamál"@.len()); }
    assert("Ayyam-i-Ha"@ != "Asmá"@) by { assert("Ayyam-i-Ha"@.len() != "Asmá"@.len()); }
    assert("Ayyam-i-Ha"@ != "Izzat"@) by { assert("Ayyam-i-Ha"@.len() != "Izzat"@.len()); }
    assert("Ayyam-i-Ha"@ != "Mashíyyat"@) by { assert("Ayyam-i-Ha"@.len() != "Mashíyyat"@.len()); }
    assert("Ayyam-i-Ha"@ != "Ilm"@) by { assert("Ayyam-i-Ha"@.len() != "Ilm"@.len()); }
    assert("Ayyam-i-Ha"@ != "Qudrat"@) by { assert("Ayyam-i-Ha"@.len() != "Qudrat"@.len()); }
    assert("Ayyam-i-Ha"@ != "Qawl"@) by { assert("Ayyam-i-Ha"@.len() != "Qawl"@.len()); }
    assert("Ayyam-i-Ha"@ != "Masá'il"@) by { assert("Ayyam-i-Ha"@.len() != "Masá'il"@.len()); }
    assert("Ayyam-i-Ha"@ != "Sharaf"@) by { assert("Ayyam-i-Ha"@.len() != "Sharaf"@.len()); }
    assert("Ayyam-i-Ha"@ != "Sultán"@) by { assert("Ayyam-i-Ha"@.len() != "Sultán"@.len()); }
    assert("Ayyam-i-Ha"@ != "Mulk"@) by { assert("Ayyam-i-Ha"@.len() != "Mulk"@.len()); }
    assert("Ayyam-i-Ha"@ != "Alá"@) by { assert("Ayyam-i-Ha"@.len() != "Alá"@.len()); }
    assert("Ayyam-i-Ha"@ != "Ayyám-i-Há"@) by { assert("Ayyam-i-Ha"@[3] != "Ayyám-i-Há"@[3]); }
}

/// The transliterated Arabic name of a month, as the calendar crate's locale
/// file gives it.
pub open spec fn transliteration_text(month: BadiMonth) -> Seq<char> {
    match month {
        BadiMonth::Month(1) => "Bahá"@,
        BadiMonth::Month(2) => "Jalál"@,
        BadiMonth::Month(3) => "Jamál"@,
        BadiMonth::Month(4) => "ʻAẓamat"@,
        BadiMonth::Month(5) => "Núr"@,
        BadiMonth::Month(6) => "Raḥmat"@,
        BadiMonth::Month(7) => "Kalimát"@,
        BadiMonth::Month(8) => "Kamál"@,
        BadiMonth::Month(9) => "Asmáʼ"@,
        BadiMonth::Month(10) => "ʻIzzat"@,
        BadiMonth::Month(11) => "Mas͟híyyat"@,
        BadiMonth::Month(12) => "ʻIlm"@,
        BadiMonth::Month(13) => "Qudrat"@,
        BadiMonth::Month(14) => "Qawl"@,
        BadiMonth::Month(15) => "Masáʼil"@,
        BadiMonth::Month(16) => "S͟haraf"@,
        BadiMonth::Month(17) => "Sulṭán"@,
        BadiMonth::Month(18) => "Mulk"@,
        BadiMonth::Month(19) => "ʻAláʼ"@,
        BadiMonth::AyyamIHa => "Ayyám-i-Há"@,
        BadiMonth::Month(_) => Seq::empty(),
    }
}

/// No month is named "Naw-Ruz": the name belongs to the day alone.
pub proof fn lemma_no_month_named_naw_ruz(month: BadiMonth)
    requires
        month_is_valid(month),
    ensures
        transliteration_text(month) != "Naw-Ruz"@,
{
    reveal_strlit("Asmáʼ");
    reveal_strlit("Ayyám-i-Há");
    reveal_strlit("Bahá");
    reveal_strlit("Jalál");
    reveal_strlit("Jamál");
    reveal_strlit("Kalimát");
    reveal_strlit("Kamál");
    reveal_strlit("Masáʼil");
    reveal_strlit("Mas͟híyyat");
    reveal_strlit("Mulk");
    reveal_strlit("Núr");
    reveal_strlit("Qawl");
    reveal_strlit("Qudrat");
    reveal_strlit("Raḥmat");
    reveal_strlit("Sulṭán");
    reveal_strlit("S͟haraf");
    reveal_strlit("ʻAláʼ");
    reveal_strlit("ʻAẓamat");
    reveal_strlit("ʻIlm");
    reveal_strlit("ʻIzzat");
    reveal_strlit("Naw-Ruz");
    assert("Asmáʼ"@ != "Naw-Ruz"@) by { assert("Asmáʼ"@.len() != "Naw-Ruz"@.len()); }
    assert("Ayyám-i-Há"@ != "Naw-Ruz"@) by { assert("Ayyám-i-Há"@.len() != "Naw-Ruz"@.len()); }
    assert("Bahá"@ != "Naw-Ruz"@) by { assert("Bahá"@.len() != "Naw-Ruz"@.len()); }
    assert("Jalál"@ != "Naw-Ruz"@) by { assert("Jalál"@.len() != "Naw-Ruz"@.len()); }
    assert("Jamál"@ != "Naw-Ruz"@) by { assert("Jamál"@.len() != "Naw-Ruz"@.len()); }
    assert("Kalimát"@ != "Naw-Ruz"@) by { assert("Kalimát"@[0] != "Naw-Ruz"@[0]); }
    assert("Kamál"@ != "Naw-Ruz"@) by { assert("Kamál"@.len() != "Naw-Ruz"@.len()); }
    assert("Masáʼil"@ != "Naw-Ruz"@) by { assert("Masáʼil"@[0] != "Naw-Ruz"@[0]); }
    assert("Mas͟híyyat"@ != "Naw-Ruz"@) by { assert("Mas͟híyyat"@.len() != "Naw-Ruz"@.len()); }
    assert("Mulk"@ != "Naw-Ruz"@) by { assert("Mulk"@.len() != "Naw-Ruz"@.len()); }
    assert("Núr"@ != "Naw-Ruz"@) by { assert("Núr"@.len() != "Naw-Ruz"@.len()); }
    assert("Qawl"@ != "Naw-Ruz"@) by { assert("Qawl"@.len() != "Naw-Ruz"@.len()); }
    assert("Qudrat"@ != "Naw-Ruz"@) by { assert("Qudrat"@.len() != "Naw-Ruz"@.len()); }
    assert("Raḥmat"@ != "Naw-Ruz"@) by { assert("Raḥmat"@.len() != "Naw-Ruz"@.len()); }
    assert("Sulṭán"@ != "Naw-Ruz"@) by { assert("Sulṭán"@.len() != "Naw-Ruz"@.len()); }
    assert("S͟haraf"@ != "Naw-Ruz"@) by { assert("S͟haraf"@[0] != "Naw-Ruz"@[0]); }
    assert("ʻAláʼ"@ != "Naw-Ruz"@) by { assert("ʻAláʼ"@.len() != "Naw-Ruz"@.len()); }
    assert("ʻAẓamat"@ != "Naw-Ruz"@) by { assert("ʻAẓamat"@[0] != "Naw-Ruz"@[0]); }
    assert("ʻIlm"@ != "Naw-Ruz"@) by { assert("ʻIlm"@.len() != "Naw-Ruz"@.len()); }
    assert("ʻIzzat"@ != "Naw-Ruz"@) by { assert("ʻIzzat"@.len() != "Naw-Ruz"@.len()); }
}

/// The transliterated name of a month, as shown beside its dates.
pub fn month_name(month: BadiMonth) -> (name: String)
    requires
        month_is_valid(month),
    ensures
        name@ == transliteration_text(month),
{
    crate::badi_calls::month_transliteration(month)
}

/// The emoji shown for a month: the one its transliterated name picks.
pub fn month_emoji_for(month: BadiMonth) -> (emoji: &'static str)
    requires
        month_is_valid(month),
    ensures
        emoji@ == month_emoji_text(transliteration_text(month)),
{
    let name = month_name(month);
    month_emoji(name.as_str())
}

/// What `str::to_lowercase` gives for a text: each character in its
/// lowercase form under Unicode's rules.
pub uninterp spec fn lowercase_of(text: Seq<char>) -> Seq<char>;

/// Every character of the text is ASCII.
pub open spec fn all_ascii(text: Seq<char>) -> bool {
    forall|i: int| 0 <= i < text.len() ==> (#[trigger] text[i] as u32) < 128
}

/// A character's ASCII lowercase: `A` to `Z` become `a` to `z`, every other
/// character stays.
pub open spec fn ascii_lower_char(c: char) -> char {
    if 'A' <= c <= 'Z' {
        ((c as u32) + 32) as char
    } else {
        c
    }
}

pub open spec fn ascii_lowercase(text: Seq<char>) -> Seq<char> {
    text.map_values(|c: char| ascii_lower_char(c))
}

/// `str::to_lowercase` from std: on ASCII text, the ASCII lowercase, as for
/// every text the Unicode lowercase mapping agrees with ASCII on ASCII
/// letters. What the mapping gives beyond ASCII is left to the name.
#[verifier::external_body]
fn to_lowercase(text: &str) -> (lower: String)
    ensures
        lower@ == lowercase_of(text@),
        all_ascii(text@) ==> lower@ == ascii_lowercase(text@),
{
    text.to_lowercase()
}

/// The views of the year that can be asked for.
#[derive(Clone, Copy, Debug, PartialEq, Eq, Structural)]
pub enum ProgressEntry {
    All,
    Day,
    Month,
    Year,
    Vahid,
    Epoch,
}

/// The view a name asks for: "all" exactly, or, in any case, one of "day",
/// "month", "year", "vahid", and "epoch", "kull-i-shay" or "kullishay" for
/// the Kull-i-S͟hay; `None` for any other name.
pub open spec fn progress_entry_for(name: Seq<char>) -> Option<ProgressEntry> {
    progress_entry_with(name, lowercase_of(name))
}

/// The view a name asks for, given the name's lowercase form.
pub open spec fn progress_entry_with(name: Seq<char>, lower: Seq<char>) -> Option<ProgressEntry> {
    if name == "all"@ {
        Some(ProgressEntry::All)
    } else if lower == "day"@ {
        Some(ProgressEntry::Day)
    } else if lower == "month"@ {
        Some(ProgressEntry::Month)
    } else if lower == "year"@ {
        Some(ProgressEntry::Year)
    } else if lower == "vahid"@ {
        Some(ProgressEntry::Vahid)
    } else if lower == "epoch"@ || lower == "kull-i-shay"@ || lower == "kullishay"@ {
        Some(ProgressEntry::Epoch)
    } else {
        None
    }
}

pub fn parse_progress_entry(name: &str) -> (entry: Option<ProgressEntry>)
    ensures
        entry == progress_entry_for(name@),
        all_ascii(name@) ==> entry == progress_entry_with(name@, ascii_lowercase(name@)),
{
    if same_text(name, "all") {
        return Some(ProgressEntry::All);
    }
    let lower = to_lowercase(name);
    let lower = lower.as_str();
    if same_text(lower, "day") {
        Some(ProgressEntry::Day)
    } else if same_text(lower, "month") {
        Some(ProgressEntry::Month)
    } else if same_text(lower, "year") {
        Some(ProgressEntry::Year)
    } else if same_text(lower, "vahid") {
        Some(ProgressEntry::Vahid)
    } else if same_text(lower, "epoch") || same_text(lower, "kull-i-shay") || same_text(lower, "kullishay") {
        Some(ProgressEntry::Epoch)
    } else {
        None
    }
}

/// The countdowns that can be asked for.
#[derive(Clone, Copy, Debug, PartialEq, Eq, Structural)]
pub enum CountdownBucket {
    All,
    Day,
    Feast,
    HolyDay,
    Year,
    Vahid,
}

/// The countdown a name asks for: "all" exactly, or, in any case, "day";
/// "month" or "feast"; "holy-day" or "holyday"; "year", "nawruz" or
/// "naw-ruz"; "vahid". `None` for any other name.
pub open spec fn countdown_bucket_for(name: Seq<char>) -> Option<CountdownBucket> {
    countdown_bucket_with(name, lowercase_of(name))
}

/// The countdown a name asks for, given the name's lowercase form.
pub open spec fn countdown_bucket_with(name: Seq<char>, lower: Seq<char>) -> Option<CountdownBucket> {
    if name == "all"@ {
        Some(CountdownBucket::All)
    } else if lower == "day"@ {
        Some(CountdownBucket::Day)
    } else if lower == "month"@ || lower == "feast"@ {
        Some(CountdownBucket::Feast)
    } else if lower == "holy-day"@ || lower == "holyday"@ {
        Some(CountdownBucket::HolyDay)
    } else if lower == "year"@ || lower == "nawruz"@ || lower == "naw-ruz"@ {
        Some(CountdownBucket::Year)
    } else if lower == "vahid"@ {
        Some(CountdownBucket::Vahid)
    } else {
        None
    }
}

pub fn parse_countdown_bucket(name: &str) -> (bucket: Option<CountdownBucket>)
    ensures
        bucket == countdown_bucket_for(name@),
        all_ascii(name@) ==> bucket == countdown_bucket_with(name@, ascii_lowercase(name@)),
{
    if same_text(name, "all") {
        return Some(CountdownBucket::All);
    }
    let lower = to_lowercase(name);
    let lower = lower.as_str();
    if same_text(lower, "day") {
        Some(CountdownBucket::Day)
    } else if same_text(lower, "month") || same_text(lower, "feast") {
        Some(CountdownBucket::Feast)
    } else if same_text(lower, "holy-day") || same_text(lower, "holyday") {
        Some(CountdownBucket::HolyDay)
    } else if same_text(lower, "year") || same_text(lower, "nawruz") || same_text(lower, "naw-ruz") {
        Some(CountdownBucket::Year)
    } else if same_text(lower, "vahid") {
        Some(CountdownBucket::Vahid)
    } else {
        None
    }
}

/// Lowering ASCII text twice changes no more than lowering it once, and the
/// result is ASCII.
pub proof fn lemma_ascii_lowercase_idempotent(text: Seq<char>)
    requires
        all_ascii(text),
    ensures
        all_ascii(ascii_lowercase(text)),
        ascii_lowercase(ascii_lowercase(text)) == ascii_lowercase(text),
{
    assert(ascii_lowercase(ascii_lowercase(text)) =~= ascii_lowercase(text));
}

/// An ASCII view name asks for the same view as its lowercase form, unless
/// one of the two is "all", which is matched exactly; the three names of the
/// Kull-i-S͟hay view ask for the same view.
pub proof fn lemma_progress_entry_ignores_case(name: Seq<char>)
    requires
        all_ascii(name),
        name != "all"@,
        ascii_lowercase(name) != "all"@,
    ensures
        progress_entry_with(name, ascii_lowercase(name)) == progress_entry_with(
            ascii_lowercase(name),
            ascii_lowercase(ascii_lowercase(name)),
        ),
        all_ascii(ascii_lowercase(name)),
        progress_entry_with("epoch"@, "epoch"@) == progress_entry_with("kull-i-shay"@, "kull-i-shay"@),
        progress_entry_with("epoch"@, "epoch"@) == progress_entry_with("kullishay"@, "kullishay"@),
        progress_entry_with("all"@, "all"@) == Some(ProgressEntry::All),
        progress_entry_with("day"@, "day"@) == Some(ProgressEntry::Day),
        progress_entry_with("month"@, "month"@) == Some(ProgressEntry::Month),
        progress_entry_with("year"@, "year"@) == Some(ProgressEntry::Year),
        progress_entry_with("vahid"@, "vahid"@) == Some(ProgressEntry::Vahid),
        progress_entry_with("epoch"@, "epoch"@) == Some(ProgressEntry::Epoch),
{
    lemma_ascii_lowercase_idempotent(name);
    reveal_strlit("all");
    reveal_strlit("day");
    reveal_strlit("month");
    reveal_strlit("year");
    reveal_strlit("vahid");
    reveal_strlit("epoch");
    reveal_strlit("kull-i-shay");
    reveal_strlit("kullishay");
    assert("all"@ != "day"@) by { assert("all"@[0] != "day"@[0]); }
    assert("all"@ != "month"@) by { assert("all"@.len() != "month"@.len()); }
    assert("all"@ != "year"@) by { assert("all"@.len() != "year"@.len()); }
    assert("all"@ != "vahid"@) by { assert("all"@.len() != "vahid"@.len()); }
    assert("all"@ != "epoch"@) by { assert("all"@.len() != "epoch"@.len()); }
    assert("all"@ != "kull-i-shay"@) by { assert("all"@.len() != "kull-i-shay"@.len()); }
    assert("all"@ != "kullishay"@) by { assert("all"@.len() != "kullishay"@.len()); }
    assert("day"@ != "month"@) by { assert("day"@.len() != "month"@.len()); }
    assert("day"@ != "year"@) by { assert("day"@.len() != "year"@.len()); }
    assert("day"@ != "vahid"@) by { assert("day"@.len() != "vahid"@.len()); }
    assert("day"@ != "epoch"@) by { assert("day"@.len() != "epoch"@.len()); }
    assert("day"@ != "kull-i-shay"@) by { assert("day"@.len() != "kull-i-shay"@.len()); }
    assert("day"@ != "kullishay"@) by { assert("day"@.len() != "kullishay"@.len()); }
    assert("month"@ != "year"@) by { assert("month"@.len() != "year"@.len()); }
    assert("month"@ != "vahid"@) by { assert("month"@[0] != "vahid"@[0]); }
    assert("vahid"@ != "year"@) by { assert("vahid"@.len() != "year"@.len()); }
    assert("epoch"@ != "month"@) by { assert("epoch"@[0] != "month"@[0]); }
    assert("epoch"@ != "year"@) by { assert("epoch"@.len() != "year"@.len()); }
    assert("epoch"@ != "vahid"@) by { assert("epoch"@[0] != "vahid"@[0]); }
    assert("epoch"@ != "kull-i-shay"@) by { assert("epoch"@.len() != "kull-i-shay"@.len()); }
    assert("epoch"@ != "kullishay"@) by { assert("epoch"@.len() != "kullishay"@.len()); }
    assert("kull-i-shay"@ != "month"@) by { assert("kull-i-shay"@.len() != "month"@.len()); }
    assert("kull-i-shay"@ != "year"@) by { assert("kull-i-shay"@.len() != "year"@.len()); }
    assert("kull-i-shay"@ != "vahid"@) by { assert("kull-i-shay"@.len() != "vahid"@.len()); }
    assert("kull-i-shay"@ != "kullishay"@) by { assert("kull-i-shay"@.len() != "kullishay"@.len()); }
    assert("kullishay"@ != "month"@) by { assert("kullishay"@.len() != "month"@.len()); }
    assert("kullishay"@ != "year"@) by { assert("kullishay"@.len() != "year"@.len()); }
    assert("kullishay"@ != "vahid"@) by { assert("kullishay"@.len() != "vahid"@.len()); }
}

/// An ASCII countdown name asks for the same countdown as its lowercase
/// form, unless one of the two is "all", which is matched exactly; the
/// aliases of one countdown ask for the same one.
pub proof fn lemma_countdown_bucket_ignores_case(name: Seq<char>)
    requires
        all_ascii(name),
        name != "all"@,
        ascii_lowercase(name) != "all"@,
    ensures
        countdown_bucket_with(name, ascii_lowercase(name)) == countdown_bucket_with(
            ascii_lowercase(name),
            ascii_lowercase(ascii_lowercase(name)),
        ),
        all_ascii(ascii_lowercase(name)),
        countdown_bucket_with("month"@, "month"@) == countdown_bucket_with("feast"@, "feast"@),
        countdown_bucket_with("holy-day"@, "holy-day"@) == countdown_bucket_with("holyday"@, "holyday"@),
        countdown_bucket_with("year"@, "year"@) == countdown_bucket_with("nawruz"@, "nawruz"@),
        countdown_bucket_with("year"@, "year"@) == countdown_bucket_with("naw-ruz"@, "naw-ruz"@),
        countdown_bucket_with("all"@, "all"@) == Some(CountdownBucket::All),
        countdown_bucket_with("day"@, "day"@) == Some(CountdownBucket::Day),
        countdown_bucket_with("feast"@, "feast"@) == Some(CountdownBucket::Feast),
        countdown_bucket_with("holyday"@, "holyday"@) == Some(CountdownBucket::HolyDay),
        countdown_bucket_with("year"@, "year"@) == Some(CountdownBucket::Year),
        countdown_bucket_with("vahid"@, "vahid"@) == Some(CountdownBucket::Vahid),
{
    lemma_ascii_lowercase_idempotent(name);
    reveal_strlit("all");
    reveal_strlit("day");
    reveal_strlit("month");
    reveal_strlit("feast");
    reveal_strlit("holy-day");
    reveal_strlit("holyday");
    reveal_strlit("year");
    reveal_strlit("nawruz");
    reveal_strlit("naw-ruz");
    reveal_strlit("vahid");
    assert("all"@ != "day"@) by { assert("all"@[0] != "day"@[0]); }
    assert("all"@ != "month"@) by { assert("all"@.len() != "month"@.len()); }
    assert("all"@ != "feast"@) by { assert("all"@.len() != "feast"@.len()); }
    assert("all"@ != "holy-day"@) by { assert("all"@.len() != "holy-day"@.len()); }
    assert("all"@ != "holyday"@) by { assert("all"@.len() != "holyday"@.len()); }
    assert("all"@ != "year"@) by { assert("all"@.len() != "year"@.len()); }
    assert("all"@ != "nawruz"@) by { assert("all"@.len() != "nawruz"@.len()); }
    assert("all"@ != "naw-ruz"@) by { assert("all"@.len() != "naw-ruz"@.len()); }
    assert("all"@ != "vahid"@) by { assert("all"@.len() != "vahid"@.len()); }
    assert("day"@ != "month"@) by { assert("day"@.len() != "month"@.len()); }
    assert("day"@ != "feast"@) by { assert("day"@.len() != "feast"@.len()); }
    assert("day"@ != "holy-day"@) by { assert("day"@.len() != "holy-day"@.len()); }
    assert("day"@ != "holyday"@) by { assert("day"@.len() != "holyday"@.len()); }
    assert("day"@ != "year"@) by { assert("day"@.len() != "year"@.len()); }
    assert("day"@ != "nawruz"@) by { assert("day"@.len() != "nawruz"@.len()); }
    assert("day"@ != "naw-ruz"@) by { assert("day"@.len() != "naw-ruz"@.len()); }
    assert("day"@ != "vahid"@) by { assert("day"@.len() != "vahid"@.len()); }
    assert("month"@ != "year"@) by { assert("month"@.len() != "year"@.len()); }
    assert("month"@ != "nawruz"@) by { assert("month"@.len() != "nawruz"@.len()); }
    assert("month"@ != "naw-ruz"@) by { assert("month"@.len() != "naw-ruz"@.len()); }
    assert("month"@ != "vahid"@) by { assert("month"@[0] != "vahid"@[0]); }
    assert("feast"@ != "month"@) by { assert("feast"@[0] != "month"@[0]); }
    assert("feast"@ != "holy-day"@) by { assert("feast"@.len() != "holy-day"@.len()); }
    assert("feast"@ != "holyday"@) by { assert("feast"@.len() != "holyday"@.len()); }
    assert("feast"@ != "year"@) by { assert("feast"@.len() != "year"@.len()); }
    assert("feast"@ != "nawruz"@) by { assert("feast"@.len() != "nawruz"@.len()); }
    assert("feast"@ != "naw-ruz"@) by { assert("feast"@.len() != "naw-ruz"@.len()); }
    assert("feast"@ != "vahid"@) by { assert("feast"@[0] != "vahid"@[0]); }
    assert("holy-day"@ != "month"@) by { assert("holy-day"@.len() != "month"@.len()); }
    assert("holy-day"@ != "holyday"@) by { assert("holy-day"@.len() != "holyday"@.len()); }
    assert("holy-day"@ != "year"@) by { assert("holy-day"@.len() != "year"@.len()); }
    assert("holy-day"@ != "nawruz"@) by { assert("holy-day"@.len() != "nawruz"@.len()); }
    assert("holy-day"@ != "naw-ruz"@) by { assert("holy-day"@.len() != "naw-ruz"@.len()); }
    assert("holy-day"@ != "vahid"@) by { assert("holy-day"@.len() != "vahid"@.len()); }
    assert("holyday"@ != "month"@) by { assert("holyday"@.len() != "month"@.len()); }
    assert("holyday"@ != "year"@) by { assert("holyday"@.len() != "year"@.len()); }
    assert("holyday"@ != "nawruz"@) by { assert("holyday"@.len() != "nawruz"@.len()); }
    assert("holyday"@ != "naw-ruz"@) by { assert("holyday"@[0] != "naw-ruz"@[0]); }
    assert("holyday"@ != "vahid"@) by { assert("holyday"@.len() != "vahid"@.len()); }
    assert("nawruz"@ != "year"@) by { assert("nawruz"@.len() != "year"@.len()); }
    assert("nawruz"@ != "vahid"@) by { assert("nawruz"@.len() != "vahid"@.len()); }
    assert("naw-ruz"@ != "year"@) by { assert("naw-ruz"@.len() != "year"@.len()); }
    assert("naw-ruz"@ != "nawruz"@) by { assert("naw-ruz"@.len() != "nawruz"@.len()); }
    assert("naw-ruz"@ != "vahid"@) by { assert("naw-ruz"@.len() != "vahid"@.len()); }
    assert("vahid"@ != "year"@) by { assert("vahid"@.len() != "year"@.len()); }
}

/// A time-zone name with every space turned into an underscore, as zone
/// names are written ("America/New York" names "America/New_York").
pub open spec fn underscore_spaces(name: Seq<char>) -> Seq<char> {
    name.map_values(|c: char| if c == ' ' { '_' } else { c })
}

pub fn normalize_timezone_name(name: &str) -> (normalized: String)
    ensures
        normalized@ == underscore_spaces(name@),
        normalized@.len() == name@.len(),
        forall|i: int| 0 <= i < name@.len() && name@[i] == ' ' ==> #[trigger] normalized@[i] == '_',
        forall|i: int| 0 <= i < name@.len() && name@[i] != ' ' ==> #[trigger] normalized@[i] == name@[i],
{
    let length = name.unicode_len();
    let mut normalized = String::new();
    let mut i: usize = 0;
    while i < length
        invariant
            length == name@.len(),
            i <= length,
            normalized@ =~= underscore_spaces(name@.take(i as int)),
        decreases length - i,
    {
        if name.get_char(i) == ' ' {
            proof {
                reveal_strlit("_");
            }
            normalized.append("_");
        } else {
            normalized.append(name.substring_char(i, i + 1));
        }
        assert(name@.take(i + 1) =~= name@.take(i as int).push(name@[i as int]));
        i = i + 1;
    }
    assert(name@.take(length as int) =~= name@);
    normalized
}

/// `piece` written `count` times.
pub open spec fn repeat_text(piece: Seq<char>, count: nat) -> Seq<char>
    decreases count,
{
    if count == 0 {
        Seq::empty()
    } else {
        repeat_text(piece, (count - 1) as nat) + piece
    }
}

pub proof fn lemma_repeat_text_len(piece: Seq<char>, count: nat)
    ensures
        repeat_text(piece, count).len() == count * piece.len(),
    decreases count,
{
    if count > 0 {
        let fewer = (count - 1) as nat;
        lemma_repeat_text_len(piece, fewer);
        assert(repeat_text(piece, count).len() == fewer * piece.len() + piece.len());
        assert(fewer * piece.len() + piece.len() == count * piece.len()) by (nonlinear_arith)
            requires
                fewer + 1 == count,
        ;
    } else {
        assert(count * piece.len() == 0) by (nonlinear_arith)
            requires
                count == 0,
        ;
    }
}

/// `count` copies of one character.
pub proof fn lemma_repeat_one_char(c: char, count: nat)
    ensures
        repeat_text(seq![c], count) =~= Seq::new(count, |i: int| c),
    decreases count,
{
    if count > 0 {
        lemma_repeat_one_char(c, (count - 1) as nat);
    }
}

/// Cells in a progress bar.
pub const PROGRESS_BAR_WIDTH: usize = 50;

fn append_repeated(text: &mut String, piece: &str, count: usize)
    ensures
        final(text)@ == old(text)@ + repeat_text(piece@, count as nat),
{
    let mut done: usize = 0;
    while done < count
        invariant
            done <= count,
            text@ == old(text)@ + repeat_text(piece@, done as nat),
        decreases count - done,
    {
        text.append(piece);
        done = done + 1;
        assert(text@ =~= old(text)@ + repeat_text(piece@, done as nat));
    }
}

/// A bar of `filled` cells of `#` followed by `-` for the rest of the width.
pub open spec fn plain_bar_text(filled: nat) -> Seq<char> {
    repeat_text("#"@, filled) + repeat_text("-"@, (PROGRESS_BAR_WIDTH - filled) as nat)
}

pub fn plain_progress_bar(filled: usize) -> (bar: String)
    requires
        filled <= PROGRESS_BAR_WIDTH,
    ensures
        bar@ == plain_bar_text(filled as nat),
        bar@.len() == PROGRESS_BAR_WIDTH,
        forall|i: int| 0 <= i < filled ==> #[trigger] bar@[i] == '#',
        forall|i: int| filled <= i < PROGRESS_BAR_WIDTH ==> #[trigger] bar@[i] == '-',
{
    let mut bar = String::new();
    append_repeated(&mut bar, "#", filled);
    append_repeated(&mut bar, "-", PROGRESS_BAR_WIDTH - filled);
    proof {
        reveal_strlit("#");
        reveal_strlit("-");
        lemma_repeat_text_len("#"@, filled as nat);
        lemma_repeat_text_len("-"@, (PROGRESS_BAR_WIDTH - filled) as nat);
        assert("#"@.len() == 1);
        assert("-"@.len() == 1);
        assert("#"@ =~= seq!['#']);
        assert("-"@ =~= seq!['-']);
        lemma_repeat_one_char('#', filled as nat);
        lemma_repeat_one_char('-', (PROGRESS_BAR_WIDTH - filled) as nat);
        assert(bar@ =~= plain_bar_text(filled as nat));
        assert(bar@.len() == filled * 1 + (PROGRESS_BAR_WIDTH - filled) * 1);
    }
    bar
}

/// A bar of `filled` solid cells, coloured, followed by light cells for the
/// rest of the width.
pub open spec fn fancy_bar_text(filled: nat) -> Seq<char> {
    "\x1B[38;5;99m"@ + repeat_text("█"@, filled) + "\x1B[0m"@ + repeat_text(
        "░"@,
        (PROGRESS_BAR_WIDTH - filled) as nat,
    )
}

pub fn fancy_progress_bar(filled: usize) -> (bar: String)
    requires
        filled <= PROGRESS_BAR_WIDTH,
    ensures
        bar@ == fancy_bar_text(filled as nat),
        bar@ == "\x1B[38;5;99m"@ + Seq::new(filled as nat, |i: int| '█') + "\x1B[0m"@ + Seq::new(
            (PROGRESS_BAR_WIDTH - filled) as nat,
            |i: int| '░',
        ),
{
    let mut bar = String::new();
    bar.append("\x1B[38;5;99m");
    append_repeated(&mut bar, "█", filled);
    bar.append("\x1B[0m");
    append_repeated(&mut bar, "░", PROGRESS_BAR_WIDTH - filled);
    assert(bar@ =~= fancy_bar_text(filled as nat));
    proof {
        reveal_strlit("█");
        reveal_strlit("░");
        assert("█"@ =~= seq!['█']);
        assert("░"@ =~= seq!['░']);
        lemma_repeat_one_char('█', filled as nat);
        lemma_repeat_one_char('░', (PROGRESS_BAR_WIDTH - filled) as nat);
    }
    bar
}

} // verus!
