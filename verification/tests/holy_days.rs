use bahai_date::calendar::BadiMonth;
use bahai_date::holy_days::{
    all_holy_days, celebration_time, holy_day_emoji, holy_day_from_index, holy_day_name, work_status,
    work_suspended, HolyDay,
};
use bahai_date::listing::{holy_day_calendar, holy_days_by_date, sort_by_day, HolyDayDate};

#[test]
fn emoji_and_celebration_times() {
    assert_eq!(holy_day_emoji(HolyDay::NawRuz), "🌺");
    assert_eq!(holy_day_emoji(HolyDay::Ridvan9th), "🌹");
    assert_eq!(holy_day_emoji(HolyDay::AscensionOfBahaullah), "⬆️");
    assert_eq!(holy_day_emoji(HolyDay::AscensionOfAbdulBaha), "🕊️");
    assert_eq!(celebration_time(HolyDay::NawRuz), "Sunset (start of the Badi day)");
    assert_eq!(celebration_time(HolyDay::Ridvan1st), "Around 3:00 PM (before sunset)");
    assert_eq!(celebration_time(HolyDay::MartyrdomOfTheBab), "Solar noon (around 12:00 PM)");
    assert_eq!(celebration_time(HolyDay::AscensionOfAbdulBaha), "Around 1:00 AM");
}

#[test]
fn work_is_suspended_on_nine_holy_days() {
    let suspended = all_holy_days().into_iter().filter(|h| work_suspended(*h)).count();
    assert_eq!(suspended, 9);
    assert!(!work_suspended(HolyDay::DayOfTheCovenant));
    assert!(work_suspended(HolyDay::BirthOfTheBab));
    assert_eq!(work_status(true), "work suspended");
    assert_eq!(work_status(false), "observance");
}

#[test]
fn index_names_each_holy_day_in_order() {
    let all = all_holy_days();
    assert_eq!(all.len(), 11);
    for (i, h) in all.iter().enumerate() {
        assert_eq!(holy_day_from_index(i as u8), Some(*h));
    }
    assert_eq!(holy_day_from_index(11), None);
}

#[test]
fn english_names() {
    assert_eq!(holy_day_name(HolyDay::NawRuz), "Naw-Rúz");
    assert_eq!(holy_day_name(HolyDay::Ridvan1st), "1st day of Riḍván");
    assert_eq!(holy_day_name(HolyDay::AscensionOfAbdulBaha), "Ascension of ‘Abdu’l-Bahá");
}

#[test]
fn sort_keeps_entries_of_one_day_in_order() {
    let entries = vec![
        (5, HolyDay::NawRuz),
        (3, HolyDay::Ridvan1st),
        (5, HolyDay::Ridvan9th),
        (3, HolyDay::Ridvan12th),
        (1, HolyDay::BirthOfTheBab),
    ];
    assert_eq!(
        sort_by_day(&entries),
        vec![
            (1, HolyDay::BirthOfTheBab),
            (3, HolyDay::Ridvan1st),
            (3, HolyDay::Ridvan12th),
            (5, HolyDay::NawRuz),
            (5, HolyDay::Ridvan9th),
        ]
    );
    assert_eq!(sort_by_day(&vec![]), vec![]);
}

#[test]
fn holy_days_of_181_in_order() {
    assert_eq!(
        holy_days_by_date(181),
        vec![
            (1, HolyDay::NawRuz),
            (32, HolyDay::Ridvan1st),
            (40, HolyDay::Ridvan9th),
            (43, HolyDay::Ridvan12th),
            (65, HolyDay::DeclarationOfTheBab),
            (70, HolyDay::AscensionOfBahaullah),
            (112, HolyDay::MartyrdomOfTheBab),
            (228, HolyDay::BirthOfTheBab),
            (229, HolyDay::BirthOfBahaullah),
            (251, HolyDay::DayOfTheCovenant),
            (253, HolyDay::AscensionOfAbdulBaha),
        ]
    );
}

#[test]
fn twin_birthdays_use_fallback_days_outside_the_table() {
    let entries = holy_days_by_date(100);
    assert_eq!(entries[7], (214, HolyDay::BirthOfTheBab));
    assert_eq!(entries[8], (237, HolyDay::BirthOfBahaullah));
}

#[test]
fn calendar_of_181_dates_each_holy_day() {
    let listing = holy_day_calendar(181);
    assert_eq!(listing.len(), 11);
    assert_eq!(
        listing[0],
        HolyDayDate { holy_day: HolyDay::NawRuz, day_of_year: 1, month: BadiMonth::Month(1), day: 1 }
    );
    assert_eq!(
        listing[6],
        HolyDayDate {
            holy_day: HolyDay::MartyrdomOfTheBab,
            day_of_year: 112,
            month: BadiMonth::Month(6),
            day: 17
        }
    );
    assert_eq!(
        listing[7],
        HolyDayDate { holy_day: HolyDay::BirthOfTheBab, day_of_year: 228, month: BadiMonth::Month(12), day: 19 }
    );
    assert_eq!(
        listing[8],
        HolyDayDate {
            holy_day: HolyDay::BirthOfBahaullah,
            day_of_year: 229,
            month: BadiMonth::Month(13),
            day: 1
        }
    );
    assert_eq!(
        listing[10],
        HolyDayDate {
            holy_day: HolyDay::AscensionOfAbdulBaha,
            day_of_year: 253,
            month: BadiMonth::Month(14),
            day: 6
        }
    );
}
