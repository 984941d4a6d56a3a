use bahai_date::calendar::{
    ayyam_i_ha_countdown, date_from_request, is_feast, month_from_number, next_feast, AyyamIHaCountdown,
    BadiMonth,
};
use bahai_date::cycles::{
    cycle_position, next_vahid_start, vahids_until_next_kull_i_shay, years_until_next_vahid, CyclePosition,
};

#[test]
fn month_number_zero_is_ayyam_i_ha() {
    assert_eq!(month_from_number(0), BadiMonth::AyyamIHa);
    assert_eq!(month_from_number(1), BadiMonth::Month(1));
    assert_eq!(month_from_number(19), BadiMonth::Month(19));
    assert_eq!(month_from_number(20), BadiMonth::Month(20));
}

#[test]
fn requested_year_is_narrowed_to_eight_bits() {
    assert_eq!(date_from_request(181, 1, 1), (181, BadiMonth::Month(1), 1));
    assert_eq!(date_from_request(300, 0, 3), (44, BadiMonth::AyyamIHa, 3));
    assert_eq!(date_from_request(256, 19, 19), (0, BadiMonth::Month(19), 19));
}

#[test]
fn feast_is_first_day_of_a_month() {
    assert!(is_feast(BadiMonth::Month(19), 1));
    assert!(!is_feast(BadiMonth::Month(19), 2));
    assert!(!is_feast(BadiMonth::AyyamIHa, 1));
}

#[test]
fn next_feast_skips_ayyam_i_ha_and_wraps_the_year() {
    assert_eq!(next_feast(181, BadiMonth::Month(5)), (181, BadiMonth::Month(6)));
    assert_eq!(next_feast(181, BadiMonth::Month(18)), (181, BadiMonth::Month(19)));
    assert_eq!(next_feast(181, BadiMonth::AyyamIHa), (181, BadiMonth::Month(19)));
    assert_eq!(next_feast(181, BadiMonth::Month(19)), (182, BadiMonth::Month(1)));
}

#[test]
fn ayyam_i_ha_countdown_counts_days_left_or_names_the_year() {
    // Year 181 has four intercalary days, year 182 five.
    assert_eq!(ayyam_i_ha_countdown(181, BadiMonth::AyyamIHa, 2), AyyamIHaCountdown::DaysRemaining(2));
    assert_eq!(ayyam_i_ha_countdown(182, BadiMonth::AyyamIHa, 1), AyyamIHaCountdown::DaysRemaining(4));
    assert_eq!(ayyam_i_ha_countdown(181, BadiMonth::Month(18), 3), AyyamIHaCountdown::NextInYear(181));
    assert_eq!(ayyam_i_ha_countdown(181, BadiMonth::Month(19), 3), AyyamIHaCountdown::NextInYear(182));
}

#[test]
fn cycle_position_of_year_181() {
    let position = cycle_position(181);
    assert_eq!(
        position,
        CyclePosition { year_in_vahid: 10, vahid: 10, vahid_in_kull_i_shay: 10, kull_i_shay: 1 }
    );
    assert_eq!(years_until_next_vahid(position), 9);
    assert_eq!(vahids_until_next_kull_i_shay(position), 9);
}

#[test]
fn cycle_position_at_cycle_edges() {
    assert_eq!(
        cycle_position(1),
        CyclePosition { year_in_vahid: 1, vahid: 1, vahid_in_kull_i_shay: 1, kull_i_shay: 1 }
    );
    assert_eq!(
        cycle_position(19),
        CyclePosition { year_in_vahid: 19, vahid: 1, vahid_in_kull_i_shay: 1, kull_i_shay: 1 }
    );
    assert_eq!(
        cycle_position(20),
        CyclePosition { year_in_vahid: 1, vahid: 2, vahid_in_kull_i_shay: 2, kull_i_shay: 1 }
    );
    let last_of_first = cycle_position(255);
    assert_eq!(
        last_of_first,
        CyclePosition { year_in_vahid: 8, vahid: 14, vahid_in_kull_i_shay: 14, kull_i_shay: 1 }
    );
    assert_eq!(years_until_next_vahid(cycle_position(19)), 0);
}

#[test]
fn next_vahid_starts_after_the_current_one() {
    assert_eq!(next_vahid_start(181), Ok(191));
    assert_eq!(next_vahid_start(190), Ok(191));
    assert_eq!(next_vahid_start(191), Ok(210));
    assert_eq!(next_vahid_start(1), Ok(20));
    assert_eq!(next_vahid_start(247), Ok(248));
    assert_eq!(next_vahid_start(248), Err(267));
    assert_eq!(next_vahid_start(255), Err(267));
}

#[test]
fn ayyam_i_ha_length_by_year() {
    // Years of the calendar table.
    assert_eq!(ayyam_i_ha_countdown(182, BadiMonth::AyyamIHa, 0), AyyamIHaCountdown::DaysRemaining(5));
    assert_eq!(ayyam_i_ha_countdown(183, BadiMonth::AyyamIHa, 0), AyyamIHaCountdown::DaysRemaining(4));
    assert_eq!(ayyam_i_ha_countdown(220, BadiMonth::AyyamIHa, 0), AyyamIHaCountdown::DaysRemaining(5));
    // Outside it, the Gregorian year in which the Badí' year ends.
    assert_eq!(ayyam_i_ha_countdown(1, BadiMonth::AyyamIHa, 0), AyyamIHaCountdown::DaysRemaining(4));
    assert_eq!(ayyam_i_ha_countdown(4, BadiMonth::AyyamIHa, 0), AyyamIHaCountdown::DaysRemaining(5));
    assert_eq!(ayyam_i_ha_countdown(56, BadiMonth::AyyamIHa, 0), AyyamIHaCountdown::DaysRemaining(4));
    assert_eq!(ayyam_i_ha_countdown(156, BadiMonth::AyyamIHa, 0), AyyamIHaCountdown::DaysRemaining(5));
    assert_eq!(ayyam_i_ha_countdown(224, BadiMonth::AyyamIHa, 0), AyyamIHaCountdown::DaysRemaining(5));
}
