//! What a day is in its week and in its lunar month, once the new moons of
//! the year are known. Days are counted from the epoch J2000.

use vstd::prelude::*;
use crate::arith::floor_mod;
use crate::lunar_phase_calculator::LunarPhaseCalculator;

verus! {

/// The day of the week of a day, 0 for Sunday: the day's Julian day number
/// and one, counted round seven.
pub open spec fn week_of(d0: int) -> int {
    (d0 + 2_451_546) % 7
}

/// The day of the week of the day `d0` days from J2000.
pub fn get_week(d0: i32) -> (week: u8)
    ensures
        week == week_of(d0 as int),
        week <= 6,
{
    floor_mod(d0 as i64 + 2_451_546, 7) as u8
}

/// The week of its month that a day falls in, from 1, where the weeks run
/// from Sunday: `day` is the day of the month and `week` its day of the week.
pub open spec fn week_index_of(day: int, week: int) -> int {
    let first = (week - (day - 1) % 7) % 7;
    (first + day - 1) / 7 + 1
}

/// The week of its month that a day falls in.
pub fn get_week_index(day: i32, week: u8) -> (index: u8)
    requires
        1 <= day <= 31,
        week <= 6,
    ensures
        index == week_index_of(day as int, week as int),
        1 <= index <= 6,
{
    let passed: i32 = day - 1;
    let i: i32 = passed % 7;
    let w: i32 = week as i32;
    let w0: i32 = if w >= i {
        w - i
    } else {
        w + 7 - i
    };
    (((w0 + passed) / 7) + 1) as u8
}

/// The number of the lunar month that stands at place `index` of the year's
/// count, which begins with the eleventh month: places 0 to 2 are the months
/// 10 to 12, the places after them the months from 1 on.
pub open spec fn month_number_of(index: int) -> int {
    if index > 2 {
        index - 2
    } else {
        index + 10
    }
}

/// The number of the lunar month at a place of the year's count.
pub fn get_lunar_month(index: i32) -> (month: u8)
    requires
        0 <= index <= 13,
    ensures
        month == month_number_of(index as int),
        1 <= month <= 12,
{
    if index > 2 {
        (index - 2) as u8
    } else {
        (index + 10) as u8
    }
}

/// `place` is the month that holds the instant `at`: the first of the 14
/// whose successor begins after `at`, or the last if none does.
pub open spec fn is_month_of(shuo: Seq<i64>, at: int, place: int) -> bool {
    &&& 0 <= place <= 13
    &&& forall|k: int| 1 <= k <= place ==> #[trigger] shuo[k] <= at
    &&& place < 13 ==> shuo[place + 1] > at
}

/// Finds the month of a year that holds the instant `at`, counted like the
/// new moons.
pub fn find_lunar_month(shuo: &[i64; 14], at: i64) -> (place: usize)
    ensures
        is_month_of(shuo@, at as int, place as int),
{
    let mut mk: usize = 0;
    while mk < 13 && shuo[mk + 1] <= at
        invariant
            mk <= 13,
            forall|k: int| 1 <= k <= mk ==> #[trigger] shuo@[k] <= at,
        decreases 13 - mk,
    {
        mk = mk + 1;
    }
    mk
}

/// A day in its lunar month.
#[derive(Clone, Copy, Debug, PartialEq, Eq, Structural)]
pub struct LunarDayInfo {
    /// The place of the month among the 14 of the year.
    pub place: usize,
    /// The number of the month in the year's count.
    pub month_index: i32,
    /// The length of the month, in the unit of the new moons.
    pub month_length: i64,
    /// Whether the month is the leap month.
    pub is_leap: bool,
    /// The distance of the instant from the month's new moon.
    pub offset: i64,
}

/// Places a day in a year: its month is the one that holds it, the leap month
/// if the year's leap month is at that place, and its distance is taken from
/// the month's new moon.
pub fn locate_lunar_day(year: &LunarPhaseCalculator, at: i64) -> (info: LunarDayInfo)
    requires
        crate::lunar_phase_calculator::events_in_range(year.shuo@),
        -1_000_000_000_000 <= at <= 1_000_000_000_000,
    ensures
        is_month_of(year.shuo@, at as int, info.place as int),
        info.month_index == year.month_indices@[info.place as int],
        info.month_length == year.month_lengths@[info.place as int],
        info.is_leap == (year.leap_month == Some(info.place as i32)),
        info.offset == at - year.shuo@[info.place as int],
{
    let place: usize = find_lunar_month(&year.shuo, at);
    let is_leap: bool = match year.leap_month {
        Some(leap) => leap == place as i32,
        None => false,
    };
    LunarDayInfo {
        place,
        month_index: year.month_indices[place],
        month_length: year.month_lengths[place],
        is_leap,
        offset: at - year.shuo[place],
    }
}

} // verus!
