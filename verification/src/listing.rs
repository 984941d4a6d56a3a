//! The holy days of a year in the order they fall, and the dates they fall on.
use vstd::prelude::*;

use crate::badi_calls::{date_of_day_of_year, holy_day_day_of_year, holy_day_doy};
use crate::calendar::{BadiMonth, month_and_day_for, LAST_YEAR_SUPPORTED};
use crate::holy_days::{
    HolyDay, all_holy_days, all_holy_days_seq, fixed_day_of_year, holy_day_index_of,
    lemma_all_holy_days_lists_each,
};

verus! {

/// Places `entry` after every entry of `sorted` whose day is not later than
/// its own, and before the later ones.
pub open spec fn insert_by_day(sorted: Seq<(u16, HolyDay)>, entry: (u16, HolyDay)) -> Seq<(u16, HolyDay)>
    decreases sorted.len(),
{
    if sorted.len() == 0 {
        seq![entry]
    } else if sorted.last().0 <= entry.0 {
        sorted.push(entry)
    } else {
        insert_by_day(sorted.drop_last(), entry).push(sorted.last())
    }
}

/// The entries ordered by day of the year; entries on the same day keep the
/// order they had.
pub open spec fn sorted_by_day(entries: Seq<(u16, HolyDay)>) -> Seq<(u16, HolyDay)>
    decreases entries.len(),
{
    if entries.len() == 0 {
        entries
    } else {
        insert_by_day(sorted_by_day(entries.drop_last()), entries.last())
    }
}

/// The days of the entries never decrease.
pub open spec fn days_ascending(entries: Seq<(u16, HolyDay)>) -> bool {
    forall|i: int, j: int| 0 <= i <= j < entries.len() ==> entries[i].0 <= entries[j].0
}

/// Whether an entry falls on `day`.
pub open spec fn falls_on(day: u16) -> spec_fn((u16, HolyDay)) -> bool {
    |entry: (u16, HolyDay)| entry.0 == day
}

/// The entries that fall on `day`, in their order.
pub open spec fn on_day(entries: Seq<(u16, HolyDay)>, day: u16) -> Seq<(u16, HolyDay)> {
    entries.filter(falls_on(day))
}

proof fn lemma_insert_after_later_entries(sorted: Seq<(u16, HolyDay)>, entry: (u16, HolyDay), cut: int)
    requires
        0 <= cut <= sorted.len(),
        forall|k: int| cut <= k < sorted.len() ==> sorted[k].0 > entry.0,
    ensures
        insert_by_day(sorted, entry) =~= insert_by_day(sorted.subrange(0, cut), entry) + sorted.subrange(
            cut,
            sorted.len() as int,
        ),
    decreases sorted.len(),
{
    if cut == sorted.len() {
        assert(sorted.subrange(0, cut) =~= sorted);
    } else {
        let rest = sorted.drop_last();
        lemma_insert_after_later_entries(rest, entry, cut);
        assert(rest.subrange(0, cut) =~= sorted.subrange(0, cut));
        assert(rest.subrange(cut, rest.len() as int).push(sorted.last()) =~= sorted.subrange(
            cut,
            sorted.len() as int,
        ));
    }
}

proof fn lemma_insert_keeps_order(sorted: Seq<(u16, HolyDay)>, entry: (u16, HolyDay))
    requires
        days_ascending(sorted),
    ensures
        days_ascending(insert_by_day(sorted, entry)),
        insert_by_day(sorted, entry).len() == sorted.len() + 1,
        insert_by_day(sorted, entry).to_multiset() =~= sorted.to_multiset().insert(entry),
        forall|k: int|
            0 <= k < insert_by_day(sorted, entry).len() ==> (#[trigger] insert_by_day(sorted, entry)[k].0
                == entry.0 || sorted.contains(insert_by_day(sorted, entry)[k])),
    decreases sorted.len(),
{
    broadcast use vstd::seq_lib::group_seq_properties;

    if sorted.len() == 0 {
        assert(seq![entry] =~= Seq::<(u16, HolyDay)>::empty().push(entry));
    } else if sorted.last().0 <= entry.0 {
    } else {
        let rest = sorted.drop_last();
        let last = sorted.last();
        assert(sorted =~= rest.push(last));
        lemma_insert_keeps_order(rest, entry);
        let inserted = insert_by_day(rest, entry);
        assert forall|k: int| 0 <= k < inserted.len() implies inserted[k].0 <= last.0 by {
            if inserted[k].0 != entry.0 {
                let w = choose|w: int| 0 <= w < rest.len() && rest[w] == inserted[k];
                assert(sorted[w] == rest[w]);
            }
        }
        assert forall|k: int| 0 <= k < insert_by_day(sorted, entry).len() implies
            #[trigger] insert_by_day(sorted, entry)[k].0 == entry.0 || sorted.contains(
            insert_by_day(sorted, entry)[k],
        ) by {
            if k < inserted.len() {
                if inserted[k].0 != entry.0 {
                    let w = choose|w: int| 0 <= w < rest.len() && rest[w] == inserted[k];
                    assert(sorted[w] == rest[w]);
                }
            } else {
                assert(sorted[sorted.len() - 1] == last);
            }
        }
    }
}

proof fn lemma_insert_on_day(sorted: Seq<(u16, HolyDay)>, entry: (u16, HolyDay), day: u16)
    ensures
        on_day(insert_by_day(sorted, entry), day) == on_day(sorted.push(entry), day),
    decreases sorted.len(),
{
    let pred = falls_on(day);
    if sorted.len() == 0 {
        assert(seq![entry] =~= sorted.push(entry));
    } else if sorted.last().0 <= entry.0 {
    } else {
        let rest = sorted.drop_last();
        let last = sorted.last();
        lemma_insert_on_day(rest, entry, day);
        insert_by_day(rest, entry).lemma_filter_push(last, pred);
        rest.lemma_filter_push(entry, pred);
        sorted.lemma_filter_push(entry, pred);
        rest.lemma_filter_push(last, pred);
        assert(rest.push(last) =~= sorted);
        let base = rest.filter(pred);
        if entry.0 == day {
            assert(last.0 != day);
            assert(on_day(insert_by_day(sorted, entry), day) == base.push(entry));
            assert(on_day(sorted.push(entry), day) == base.push(entry));
        } else if last.0 == day {
            assert(on_day(insert_by_day(sorted, entry), day) == base.push(last));
            assert(on_day(sorted.push(entry), day) == base.push(last));
        } else {
            assert(on_day(insert_by_day(sorted, entry), day) == base);
            assert(on_day(sorted.push(entry), day) == base);
        }
    }
}

/// Ordering the holy days by date: the result is in order of day, holds the
/// same entries as many times each, and keeps entries that share a day in
/// the order they were given.
pub proof fn lemma_sorted_by_day_is_stable_sort(entries: Seq<(u16, HolyDay)>)
    ensures
        days_ascending(sorted_by_day(entries)),
        sorted_by_day(entries).to_multiset() =~= entries.to_multiset(),
        forall|day: u16| #[trigger] on_day(sorted_by_day(entries), day) == on_day(entries, day),
    decreases entries.len(),
{
    broadcast use vstd::seq_lib::group_seq_properties;

    if entries.len() == 0 {
    } else {
        let rest = entries.drop_last();
        let last = entries.last();
        assert(entries =~= rest.push(last));
        lemma_sorted_by_day_is_stable_sort(rest);
        lemma_insert_keeps_order(sorted_by_day(rest), last);
        assert forall|day: u16| #[trigger] on_day(sorted_by_day(entries), day) == on_day(entries, day) by {
            let pred = falls_on(day);
            lemma_insert_on_day(sorted_by_day(rest), last, day);
            sorted_by_day(rest).lemma_filter_push(last, pred);
            rest.lemma_filter_push(last, pred);
            assert(on_day(sorted_by_day(rest), day) == on_day(rest, day));
        }
    }
}

/// Orders dated holy days by day of the year, keeping entries of one day in
/// the order they were given.
pub fn sort_by_day(entries: &Vec<(u16, HolyDay)>) -> (sorted: Vec<(u16, HolyDay)>)
    ensures
        sorted@ == sorted_by_day(entries@),
{
    let mut sorted: Vec<(u16, HolyDay)> = Vec::new();
    let count = entries.len();
    for i in 0..count
        invariant
            count == entries@.len(),
            sorted@ == sorted_by_day(entries@.take(i as int)),
    {
        let entry = entries[i];
        let mut cut = sorted.len();
        while cut > 0 && sorted[cut - 1].0 > entry.0
            invariant
                cut <= sorted.len(),
                forall|k: int| cut <= k < sorted@.len() ==> sorted@[k].0 > entry.0,
            decreases cut,
        {
            cut = cut - 1;
        }
        proof {
            lemma_insert_after_later_entries(sorted@, entry, cut as int);
            let head = sorted@.subrange(0, cut as int);
            if cut > 0 {
                assert(head.last() == sorted@[cut - 1]);
            }
            assert(insert_by_day(head, entry) =~= head.push(entry)) by {
                if head.len() == 0 {
                    assert(seq![entry] =~= head.push(entry));
                }
            }
            assert(entries@.take(i + 1).drop_last() =~= entries@.take(i as int));
            assert(entries@.take(i + 1).last() == entry);
        }
        sorted.insert(cut, entry);
        assert(sorted@ =~= sorted_by_day(entries@.take(i + 1)));
    }
    assert(entries@.take(count as int) =~= entries@);
    sorted
}

/// Each holy day with the day of the year on which it falls in `year`, in
/// the calendar's order.
pub open spec fn holy_days_with_day(year: u8) -> Seq<(u16, HolyDay)> {
    all_holy_days_seq().map_values(|holy_day: HolyDay| (holy_day_doy(holy_day, year), holy_day))
}

/// What the calendar crate's table gives of the day of the year on which a
/// holy day falls: the fixed day where it has one; for the Twin Holy
/// Birthdays a table day and the day after it, or the fallback days.
spec fn day_facts(holy_day: HolyDay, year: u8) -> bool {
    &&& fixed_day_of_year(holy_day) matches Some(d) ==> holy_day_doy(holy_day, year) == d
    &&& holy_day == HolyDay::BirthOfTheBab ==> if 172 <= year <= 221 {
        209 <= holy_day_doy(holy_day, year) <= 238
    } else {
        holy_day_doy(holy_day, year) == 214
    }
    &&& holy_day == HolyDay::BirthOfBahaullah ==> if 172 <= year <= 221 {
        holy_day_doy(holy_day, year) == holy_day_doy(HolyDay::BirthOfTheBab, year) + 1
    } else {
        holy_day_doy(holy_day, year) == 237
    }
}

/// The holy days of `year`, each with its day of the year, in the order in
/// which they fall. Each holy day is listed once, and no two fall on the same
/// day.
pub fn holy_days_by_date(year: u8) -> (entries: Vec<(u16, HolyDay)>)
    ensures
        entries@ == sorted_by_day(holy_days_with_day(year)),
        entries@.len() == 11,
        forall|k: int| 0 <= k < entries@.len() ==> 1 <= #[trigger] entries@[k].0 <= 253,
        forall|k: int| 0 <= k < entries@.len() ==> #[trigger] entries@[k].0 == holy_day_doy(entries@[k].1, year),
        forall|holy_day: HolyDay| #[trigger] entries@.contains((holy_day_doy(holy_day, year), holy_day)),
        forall|i: int, j: int|
            0 <= i < entries@.len() && 0 <= j < entries@.len() && i != j ==> #[trigger] entries@[i].1
                != #[trigger] entries@[j].1 && entries@[i].0 != entries@[j].0,
{
    broadcast use vstd::seq_lib::group_seq_properties;

    let holy_days = all_holy_days();
    let mut dated: Vec<(u16, HolyDay)> = Vec::new();
    for i in 0..holy_days.len()
        invariant
            holy_days@ == all_holy_days_seq(),
            dated@ =~= holy_days_with_day(year).take(i as int),
            forall|k: int| 0 <= k < i ==> #[trigger] day_facts(all_holy_days_seq()[k], year),
    {
        let holy_day = holy_days[i];
        dated.push((holy_day_day_of_year(holy_day, year), holy_day));
        assert(i == 8 ==> day_facts(all_holy_days_seq()[7], year));
        assert(day_facts(all_holy_days_seq()[i as int], year));
        assert(dated@ =~= holy_days_with_day(year).take(i + 1));
    }
    let ghost with_day = holy_days_with_day(year);
    let ghost all = all_holy_days_seq();
    assert(with_day.take(holy_days.len() as int) =~= with_day);
    let sorted = sort_by_day(&dated);
    proof {
        lemma_sorted_by_day_is_stable_sort(with_day);
        assert(sorted@.len() == with_day.len()) by {
            sorted@.to_multiset_ensures();
            with_day.to_multiset_ensures();
        }
        assert forall|w1: int, w2: int| 0 <= w1 < 11 && 0 <= w2 < 11 && w1 != w2 implies #[trigger] all[w1]
            != #[trigger] all[w2] && holy_day_doy(all[w1], year) != holy_day_doy(all[w2], year) by {
            assert(day_facts(all[w1], year));
            assert(day_facts(all[w2], year));
            assert(day_facts(all[7], year));
        }
        assert(with_day.no_duplicates()) by {
            assert forall|i: int, j: int| 0 <= i < with_day.len() && 0 <= j < with_day.len() && i != j implies
                with_day[i] != with_day[j] by {
                assert(all[i] != all[j]);
            }
        }
        with_day.lemma_multiset_has_no_duplicates();
        sorted@.lemma_multiset_has_no_duplicates_conv();
        assert forall|k: int| 0 <= k < sorted@.len() implies (1 <= #[trigger] sorted@[k].0 <= 253
            && sorted@[k].0 == holy_day_doy(sorted@[k].1, year) && exists|w: int|
            0 <= w < with_day.len() && with_day[w] == sorted@[k]) by {
            assert(sorted@.to_multiset().count(sorted@[k]) > 0);
            assert(with_day.contains(sorted@[k]));
            let w = choose|w: int| 0 <= w < with_day.len() && with_day[w] == sorted@[k];
            assert(day_facts(all[w], year));
            assert(day_facts(all[7], year));
            assert(with_day[w].0 == holy_day_doy(all[w], year));
            assert(0 <= w < with_day.len() && with_day[w] == sorted@[k]);
        }
        assert forall|i: int, j: int|
            0 <= i < sorted@.len() && 0 <= j < sorted@.len() && i != j implies #[trigger] sorted@[i].1
                != #[trigger] sorted@[j].1 && sorted@[i].0 != sorted@[j].0 by {
            assert(1 <= sorted@[i].0 <= 253);
            assert(1 <= sorted@[j].0 <= 253);
            let w1 = choose|w: int| 0 <= w < with_day.len() && with_day[w] == sorted@[i];
            let w2 = choose|w: int| 0 <= w < with_day.len() && with_day[w] == sorted@[j];
            assert(sorted@[i] != sorted@[j]);
            assert(w1 != w2);
            assert(all[w1] != all[w2]);
        }
        assert forall|holy_day: HolyDay| #[trigger] sorted@.contains((holy_day_doy(holy_day, year), holy_day)) by {
            lemma_all_holy_days_lists_each(holy_day);
            let w = holy_day_index_of(holy_day) as int;
            assert(with_day[w] == (holy_day_doy(holy_day, year), holy_day));
            assert(with_day.to_multiset().count(with_day[w]) > 0);
        }
    }
    sorted
}

/// A holy day with the date on which it falls.
#[derive(Clone, Copy, Debug, PartialEq, Eq, Structural)]
pub struct HolyDayDate {
    pub holy_day: HolyDay,
    pub day_of_year: u16,
    pub month: BadiMonth,
    pub day: u16,
}

/// The date of a dated holy day, where its year has that day.
pub open spec fn dated_entry(year: u8, entry: (u16, HolyDay)) -> Option<HolyDayDate> {
    match month_and_day_for(year, entry.0) {
        Some(date) => Some(HolyDayDate { holy_day: entry.1, day_of_year: entry.0, month: date.0, day: date.1 }),
        None => None,
    }
}

/// Dates the entries of `year`.
pub open spec fn dated_in(year: u8) -> spec_fn((u16, HolyDay)) -> Option<HolyDayDate> {
    |entry: (u16, HolyDay)| dated_entry(year, entry)
}

/// The holy days of `year` in the order they fall, each with its date.
pub open spec fn holy_day_calendar_of(year: u8) -> Seq<HolyDayDate> {
    sorted_by_day(holy_days_with_day(year)).filter_map(dated_in(year))
}

/// The listing holds `holy_day` on `day_of_year`.
pub open spec fn lists(listing: Seq<HolyDayDate>, holy_day: HolyDay, day_of_year: u16) -> bool {
    exists|k: int|
        0 <= k < listing.len() && #[trigger] listing[k].holy_day == holy_day && listing[k].day_of_year
            == day_of_year
}

/// The holy days of `year` with their dates, in the order they fall. Every
/// holy day is listed once, on the month and day its day of the year names.
pub fn holy_day_calendar(year: u8) -> (listing: Vec<HolyDayDate>)
    requires
        1 <= year <= LAST_YEAR_SUPPORTED,
    ensures
        listing@ == holy_day_calendar_of(year),
        listing@.len() == 11,
        forall|i: int, j: int|
            0 <= i <= j < listing@.len() ==> listing@[i].day_of_year <= listing@[j].day_of_year,
        forall|holy_day: HolyDay| #[trigger] lists(listing@, holy_day, holy_day_doy(holy_day, year)),
        forall|k: int|
            0 <= k < listing@.len() ==> (#[trigger] listing@[k].month matches BadiMonth::Month(m) && 1 <= m
                <= 18 && listing@[k].day_of_year == 19 * (m - 1) + listing@[k].day && 1 <= listing@[k].day
                <= 19),
{
    let entries = holy_days_by_date(year);
    let mut listing: Vec<HolyDayDate> = Vec::new();
    for i in 0..entries.len()
        invariant
            1 <= year <= LAST_YEAR_SUPPORTED,
            entries@.len() == 11,
            forall|k: int| 0 <= k < entries@.len() ==> 1 <= #[trigger] entries@[k].0 <= 253,
            listing@ == entries@.take(i as int).filter_map(dated_in(year)),
            listing@.len() == i,
            forall|k: int|
                0 <= k < i ==> #[trigger] listing@[k] == (HolyDayDate {
                    holy_day: entries@[k].1,
                    day_of_year: entries@[k].0,
                    month: BadiMonth::Month(((entries@[k].0 - 1) / 19 + 1) as u8),
                    day: ((entries@[k].0 - 1) % 19 + 1) as u16,
                }),
    {
        let (day_of_year, holy_day) = entries[i];
        assert(1 <= entries@[i as int].0 <= 253);
        let date = date_of_day_of_year(year, day_of_year);
        let ghost listed = HolyDayDate {
            holy_day,
            day_of_year,
            month: BadiMonth::Month(((day_of_year - 1) / 19 + 1) as u8),
            day: ((day_of_year - 1) % 19 + 1) as u16,
        };
        assert(entries@[i as int] == (day_of_year, holy_day));
        assert(day_of_year < 343);
        assert(month_and_day_for(year, day_of_year) == Some((listed.month, listed.day)));
        assert(dated_entry(year, (day_of_year, holy_day)) == Some(listed));
        assert(dated_in(year)(entries@[i as int]) == Some(listed));
        assert(entries@.take(i + 1).drop_last() =~= entries@.take(i as int));
        assert(entries@.take(i + 1).last() == entries@[i as int]);
        assert(entries@.take(i + 1).filter_map(dated_in(year)) == entries@.take(i as int).filter_map(dated_in(year)) + seq![listed]);
        if let Some((month, day)) = date {
            listing.push(HolyDayDate { holy_day, day_of_year, month, day });
        }
    }
    assert(entries@.take(entries@.len() as int) =~= entries@);
    proof {
        lemma_sorted_by_day_is_stable_sort(holy_days_with_day(year));
        assert forall|holy_day: HolyDay| #[trigger] lists(listing@, holy_day, holy_day_doy(holy_day, year)) by {
            assert(entries@.contains((holy_day_doy(holy_day, year), holy_day)));
            let w = choose|w: int| 0 <= w < entries@.len() && entries@[w] == (holy_day_doy(holy_day, year), holy_day);
            assert(listing@[w].holy_day == holy_day);
            assert(listing@[w].day_of_year == holy_day_doy(holy_day, year));
        }
    }
    listing
}

} // verus!
