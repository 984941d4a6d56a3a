//! The cycles that group Badí' years: nineteen years make a Váḥid, and
//! nineteen Váḥids (361 years) make a Kull-i-S͟hay.
use vstd::prelude::*;
use vstd::arithmetic::div_mod::{lemma_div_denominator, lemma_fundamental_div_mod, lemma_div_pos_is_pos};

verus! {

/// Years in one Váḥid.
pub const YEARS_PER_VAHID: u16 = 19;

/// Váḥids in one Kull-i-S͟hay.
pub const VAHIDS_PER_KULL_I_SHAY: u16 = 19;

/// Where a year stands in the cycles, each count starting at 1.
#[derive(Clone, Copy, Debug, PartialEq, Eq, Structural)]
pub struct CyclePosition {
    /// The year's place in its Váḥid, 1 to 19.
    pub year_in_vahid: u16,
    /// The Váḥid the year belongs to, counted from the first year.
    pub vahid: u16,
    /// The Váḥid's place in its Kull-i-S͟hay, 1 to 19.
    pub vahid_in_kull_i_shay: u16,
    /// The Kull-i-S͟hay the year belongs to.
    pub kull_i_shay: u16,
}

pub open spec fn year_in_vahid_of(year: int) -> int {
    (year - 1) % 19 + 1
}

pub open spec fn vahid_of(year: int) -> int {
    (year - 1) / 19 + 1
}

pub open spec fn vahid_in_kull_i_shay_of(year: int) -> int {
    ((year - 1) / 19) % 19 + 1
}

pub open spec fn kull_i_shay_of(year: int) -> int {
    (year - 1) / 361 + 1
}

pub open spec fn cycle_position_of(year: int) -> CyclePosition {
    CyclePosition {
        year_in_vahid: year_in_vahid_of(year) as u16,
        vahid: vahid_of(year) as u16,
        vahid_in_kull_i_shay: vahid_in_kull_i_shay_of(year) as u16,
        kull_i_shay: kull_i_shay_of(year) as u16,
    }
}

/// The place of a year (from 1) in the Váḥid and Kull-i-S͟hay cycles.
pub fn cycle_position(year: u8) -> (position: CyclePosition)
    requires
        year >= 1,
    ensures
        position == cycle_position_of(year as int),
        1 <= position.year_in_vahid <= 19,
        1 <= position.vahid_in_kull_i_shay <= 19,
        position.vahid >= 1,
        position.kull_i_shay >= 1,
{
    let elapsed: u16 = year as u16 - 1;
    proof {
        lemma_cycles_decompose_year(year as int);
    }
    CyclePosition {
        year_in_vahid: elapsed % YEARS_PER_VAHID + 1,
        vahid: elapsed / YEARS_PER_VAHID + 1,
        vahid_in_kull_i_shay: (elapsed / YEARS_PER_VAHID) % VAHIDS_PER_KULL_I_SHAY + 1,
        kull_i_shay: elapsed / (YEARS_PER_VAHID * VAHIDS_PER_KULL_I_SHAY) + 1,
    }
}

/// A year is recovered from its place in the cycles: it is the
/// `year_in_vahid`-th year of the `vahid_in_kull_i_shay`-th Váḥid of its
/// Kull-i-S͟hay, and its Váḥid is the `vahid_in_kull_i_shay`-th of that
/// Kull-i-S͟hay.
pub proof fn lemma_cycles_decompose_year(year: int)
    requires
        year >= 1,
    ensures
        1 <= year_in_vahid_of(year) <= 19,
        1 <= vahid_in_kull_i_shay_of(year) <= 19,
        vahid_of(year) >= 1,
        kull_i_shay_of(year) >= 1,
        year == (kull_i_shay_of(year) - 1) * 361 + (vahid_in_kull_i_shay_of(year) - 1) * 19
            + year_in_vahid_of(year),
        vahid_of(year) == (kull_i_shay_of(year) - 1) * 19 + vahid_in_kull_i_shay_of(year),
        year == (vahid_of(year) - 1) * 19 + year_in_vahid_of(year),
{
    let elapsed = year - 1;
    lemma_fundamental_div_mod(elapsed, 19);
    lemma_fundamental_div_mod(elapsed / 19, 19);
    lemma_div_denominator(elapsed, 19, 19);
    lemma_div_pos_is_pos(elapsed, 19);
    lemma_div_pos_is_pos(elapsed / 19, 19);
    assert(elapsed / 19 / 19 == elapsed / 361);
}

/// Years still to come in the current Váḥid after `year`.
pub open spec fn years_until_next_vahid_of(year: int) -> int {
    19 - year_in_vahid_of(year)
}

pub fn years_until_next_vahid(position: CyclePosition) -> (years: u16)
    requires
        1 <= position.year_in_vahid <= 19,
    ensures
        years == 19 - position.year_in_vahid,
{
    YEARS_PER_VAHID - position.year_in_vahid
}

/// Váḥids still to come in the current Kull-i-S͟hay after the current one.
pub fn vahids_until_next_kull_i_shay(position: CyclePosition) -> (vahids: u16)
    requires
        1 <= position.vahid_in_kull_i_shay <= 19,
    ensures
        vahids == 19 - position.vahid_in_kull_i_shay,
{
    VAHIDS_PER_KULL_I_SHAY - position.vahid_in_kull_i_shay
}

/// After the years that remain of its Váḥid, a year reaches the last year of
/// that Váḥid: the year after is the first of the next Váḥid.
pub proof fn lemma_years_until_next_vahid(year: int)
    requires
        year >= 1,
    ensures
        0 <= years_until_next_vahid_of(year) <= 18,
        year_in_vahid_of(year + years_until_next_vahid_of(year)) == 19,
        vahid_of(year + years_until_next_vahid_of(year)) == vahid_of(year),
        year_in_vahid_of(year + years_until_next_vahid_of(year) + 1) == 1,
        vahid_of(year + years_until_next_vahid_of(year) + 1) == vahid_of(year) + 1,
{
    lemma_cycles_decompose_year(year);
    let last = year + years_until_next_vahid_of(year);
    assert(last == vahid_of(year) * 19);
    assert(last - 1 == (vahid_of(year) - 1) * 19 + 18);
    lemma_cycles_decompose_year(last);
    lemma_cycles_decompose_year(last + 1);
    lemma_unique_place(last - 1, vahid_of(year) - 1, 18);
    lemma_unique_place(last, vahid_of(year), 0);
}

/// Division by 19 splits `n` into a unique quotient and remainder.
proof fn lemma_unique_place(n: int, quotient: int, remainder: int)
    requires
        0 <= remainder < 19,
        quotient >= 0,
        n == quotient * 19 + remainder,
    ensures
        n / 19 == quotient,
        n % 19 == remainder,
{
    vstd::arithmetic::div_mod::lemma_fundamental_div_mod_converse(n, 19, quotient, remainder);
}

/// First year of the Váḥid after the one holding `year`.
pub open spec fn next_vahid_start_of(year: int) -> int {
    vahid_of(year) * 19 + 1
}

/// The first year of the next Váḥid where it fits in a year number of eight
/// bits; past that limit, the year it would be, as an error.
pub fn next_vahid_start(year: u8) -> (start: Result<u8, u16>)
    requires
        year >= 1,
    ensures
        next_vahid_start_of(year as int) <= u8::MAX ==> start == Ok::<u8, u16>(next_vahid_start_of(year as int) as u8),
        next_vahid_start_of(year as int) > u8::MAX ==> start == Err::<u8, u16>(next_vahid_start_of(year as int) as u16),
{
    let elapsed: u16 = year as u16 - 1;
    proof {
        lemma_cycles_decompose_year(year as int);
    }
    let start: u16 = ((elapsed / YEARS_PER_VAHID) + 1) * YEARS_PER_VAHID + 1;
    if start > 255 {
        Err(start)
    } else {
        Ok(start as u8)
    }
}

/// The next Váḥid begins after `year`, on the first year of a Váḥid, and no
/// Váḥid begins in between.
pub proof fn lemma_next_vahid_start_is_first(year: int, other: int)
    requires
        year >= 1,
    ensures
        next_vahid_start_of(year) > year,
        year_in_vahid_of(next_vahid_start_of(year)) == 1,
        vahid_of(next_vahid_start_of(year)) == vahid_of(year) + 1,
        year < other < next_vahid_start_of(year) ==> year_in_vahid_of(other) != 1,
{
    lemma_years_until_next_vahid(year);
    lemma_cycles_decompose_year(year);
    if year < other < next_vahid_start_of(year) {
        lemma_cycles_decompose_year(other);
        let q = vahid_of(year) - 1;
        assert(other - 1 == q * 19 + (other - 1 - q * 19));
        lemma_unique_place(other - 1, q, other - 1 - q * 19);
    }
}

} // verus!
