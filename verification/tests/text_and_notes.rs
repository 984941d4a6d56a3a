use bahai_date::calendar::BadiMonth;
use bahai_date::holy_days::HolyDay;
use bahai_date::notes::{
    date_heading, date_notes, holy_day_on, plain_date_notes, seconds_until, upcoming_holy_day, Note, UpcomingHolyDay,
};
use bahai_date::text::{
    fancy_progress_bar, month_emoji, month_emoji_for, month_name, normalize_timezone_name, parse_countdown_bucket,
    parse_progress_entry, plain_progress_bar, same_text, CountdownBucket, ProgressEntry,
};

#[test]
fn text_comparison() {
    assert!(same_text("Bahá", "Bahá"));
    assert!(!same_text("Baha", "Bahá"));
    assert!(!same_text("Bah", "Bahá"));
    assert!(same_text("", ""));
}

#[test]
fn month_emoji_by_name() {
    assert_eq!(month_emoji("Bahá"), "✨");
    assert_eq!(month_emoji("Qudrat"), "⚡");
    assert_eq!(month_emoji("Ayyam-i-Ha"), "🎉");
    assert_eq!(month_emoji("Azamat"), "🏛️");
    assert_eq!(month_emoji("Unknown"), "📅");
}

#[test]
fn month_emoji_by_month_follows_transliterated_names() {
    assert_eq!(month_emoji_for(BadiMonth::Month(1)), "✨");
    assert_eq!(month_emoji_for(BadiMonth::Month(13)), "⚡");
    assert_eq!(month_emoji_for(BadiMonth::Month(18)), "🌍");
    assert_eq!(month_emoji_for(BadiMonth::AyyamIHa), "🎉");
    // Transliterations with diacritics the list does not spell out.
    assert_eq!(month_emoji_for(BadiMonth::Month(4)), "📅");
    assert_eq!(month_emoji_for(BadiMonth::Month(19)), "📅");
}

#[test]
fn month_names() {
    assert_eq!(month_name(BadiMonth::Month(1)), "Bahá");
    assert_eq!(month_name(BadiMonth::Month(14)), "Qawl");
    assert_eq!(month_name(BadiMonth::Month(4)), "ʻAẓamat");
    assert_eq!(month_name(BadiMonth::AyyamIHa), "Ayyám-i-Há");
}

#[test]
fn progress_entries_by_name() {
    assert_eq!(parse_progress_entry("all"), Some(ProgressEntry::All));
    assert_eq!(parse_progress_entry("ALL"), None);
    assert_eq!(parse_progress_entry("Day"), Some(ProgressEntry::Day));
    assert_eq!(parse_progress_entry("MONTH"), Some(ProgressEntry::Month));
    assert_eq!(parse_progress_entry("year"), Some(ProgressEntry::Year));
    assert_eq!(parse_progress_entry("Vahid"), Some(ProgressEntry::Vahid));
    assert_eq!(parse_progress_entry("Kull-i-Shay"), Some(ProgressEntry::Epoch));
    assert_eq!(parse_progress_entry("kullishay"), Some(ProgressEntry::Epoch));
    assert_eq!(parse_progress_entry("epoch"), Some(ProgressEntry::Epoch));
    assert_eq!(parse_progress_entry("week"), None);
}

#[test]
fn countdown_buckets_by_name() {
    assert_eq!(parse_countdown_bucket("all"), Some(CountdownBucket::All));
    assert_eq!(parse_countdown_bucket("DAY"), Some(CountdownBucket::Day));
    assert_eq!(parse_countdown_bucket("feast"), Some(CountdownBucket::Feast));
    assert_eq!(parse_countdown_bucket("Month"), Some(CountdownBucket::Feast));
    assert_eq!(parse_countdown_bucket("holyday"), Some(CountdownBucket::HolyDay));
    assert_eq!(parse_countdown_bucket("Holy-Day"), Some(CountdownBucket::HolyDay));
    assert_eq!(parse_countdown_bucket("Naw-Ruz"), Some(CountdownBucket::Year));
    assert_eq!(parse_countdown_bucket("nawruz"), Some(CountdownBucket::Year));
    assert_eq!(parse_countdown_bucket("vahid"), Some(CountdownBucket::Vahid));
    assert_eq!(parse_countdown_bucket("epoch"), None);
}

#[test]
fn timezone_names_get_underscores() {
    assert_eq!(normalize_timezone_name("America/New York"), "America/New_York");
    assert_eq!(normalize_timezone_name("Asia/Jerusalem"), "Asia/Jerusalem");
    assert_eq!(normalize_timezone_name(" a b "), "_a_b_");
    assert_eq!(normalize_timezone_name(""), "");
}

#[test]
fn progress_bars_are_fifty_cells() {
    let bar = plain_progress_bar(10);
    assert_eq!(bar, format!("{}{}", "#".repeat(10), "-".repeat(40)));
    assert_eq!(bar.chars().count(), 50);
    assert_eq!(plain_progress_bar(0), "-".repeat(50));
    assert_eq!(plain_progress_bar(50), "#".repeat(50));
    assert_eq!(
        fancy_progress_bar(3),
        format!("\x1B[38;5;99m{}\x1B[0m{}", "█".repeat(3), "░".repeat(47))
    );
}

#[test]
fn notes_for_dates() {
    assert_eq!(
        date_notes(181, BadiMonth::Month(6), 17),
        vec![Note::HolyDayNote { holy_day: HolyDay::MartyrdomOfTheBab, work_suspended: true }]
    );
    assert_eq!(date_notes(181, BadiMonth::AyyamIHa, 2), vec![Note::AyyamIHaDay { day: 2, total: 4 }]);
    assert_eq!(date_notes(181, BadiMonth::Month(19), 1), vec![Note::FeastDay]);
    assert_eq!(
        date_notes(182, BadiMonth::Month(1), 1),
        vec![Note::HolyDayNote { holy_day: HolyDay::NawRuz, work_suspended: true }, Note::FeastDay]
    );
    assert_eq!(
        date_notes(181, BadiMonth::Month(14), 6),
        vec![Note::HolyDayNote { holy_day: HolyDay::AscensionOfAbdulBaha, work_suspended: false }]
    );
    assert_eq!(date_notes(181, BadiMonth::Month(5), 2), vec![]);
}

#[test]
fn holy_day_on_invalid_date_is_none() {
    assert_eq!(holy_day_on(181, BadiMonth::Month(20), 1), None);
    assert_eq!(holy_day_on(0, BadiMonth::Month(1), 1), None);
    assert_eq!(holy_day_on(181, BadiMonth::Month(12), 19), Some(HolyDay::BirthOfTheBab));
}

#[test]
fn upcoming_holy_days() {
    assert_eq!(
        upcoming_holy_day(181, BadiMonth::Month(5), 2),
        Some(UpcomingHolyDay {
            year: 181,
            month: BadiMonth::Month(6),
            day: 17,
            holy_day: Some(HolyDay::MartyrdomOfTheBab)
        })
    );
    assert_eq!(
        upcoming_holy_day(181, BadiMonth::AyyamIHa, 2),
        Some(UpcomingHolyDay { year: 182, month: BadiMonth::Month(1), day: 1, holy_day: Some(HolyDay::NawRuz) })
    );
    assert_eq!(upcoming_holy_day(181, BadiMonth::Month(19), 20), None);
    assert_eq!(upcoming_holy_day(221, BadiMonth::Month(19), 19), None);
}

#[test]
fn seconds_until_never_negative() {
    assert_eq!(seconds_until(100, 40), 60);
    assert_eq!(seconds_until(40, 100), 0);
    assert_eq!(seconds_until(5, 5), 0);
}

#[test]
fn naw_ruz_date_line_names_the_day() {
    assert_eq!(format!("{} {} {}", 1, date_heading(BadiMonth::Month(1), 1), 181), "1 Naw-Ruz 181");
    assert_eq!(plain_date_notes(181, BadiMonth::Month(1), 1), vec![]);
    assert_eq!(plain_date_notes(182, BadiMonth::Month(1), 1), vec![]);
}

#[test]
fn other_date_lines_name_the_month() {
    assert_eq!(format!("{} {} {}", 8, date_heading(BadiMonth::Month(18), 8), 182), "8 Mulk 182");
    assert_eq!(format!("{} {} {}", 14, date_heading(BadiMonth::Month(14), 14), 174), "14 Qawl 174");
    assert_eq!(date_heading(BadiMonth::Month(1), 2), "Bahá");
    assert_eq!(date_heading(BadiMonth::Month(2), 1), "Jalál");
    assert_eq!(plain_date_notes(181, BadiMonth::Month(19), 1), vec![Note::FeastDay]);
    assert_eq!(
        plain_date_notes(181, BadiMonth::Month(6), 17),
        vec![Note::HolyDayNote { holy_day: HolyDay::MartyrdomOfTheBab, work_suspended: true }]
    );
    assert_eq!(plain_date_notes(181, BadiMonth::Month(18), 8), vec![]);
}

#[test]
fn names_ignore_ascii_case() {
    for name in ["Day", "MONTH", "Year", "VAHID", "Epoch", "KULL-I-SHAY", "KullIShay"] {
        assert_eq!(parse_progress_entry(name), parse_progress_entry(&name.to_lowercase()));
    }
    for name in ["DAY", "Feast", "HOLY-DAY", "NawRuz", "Naw-Ruz", "Vahid", "Week"] {
        assert_eq!(parse_countdown_bucket(name), parse_countdown_bucket(&name.to_lowercase()));
    }
}

#[test]
fn upcoming_holy_day_follows_in_order() {
    // From the day after the Birth of the Báb, the next is the Birth of Bahá’u’lláh.
    assert_eq!(
        upcoming_holy_day(181, BadiMonth::Month(12), 19),
        Some(UpcomingHolyDay {
            year: 181,
            month: BadiMonth::Month(13),
            day: 1,
            holy_day: Some(HolyDay::BirthOfBahaullah)
        })
    );
    assert_eq!(
        upcoming_holy_day(181, BadiMonth::Month(14), 6),
        Some(UpcomingHolyDay { year: 182, month: BadiMonth::Month(1), day: 1, holy_day: Some(HolyDay::NawRuz) })
    );
}
