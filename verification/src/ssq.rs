//! The month numbers of the early calendars.

use vstd::prelude::*;
use crate::arith::floor_mod;

verus! {

/// The number under which a month is named, 0 to 12: its number in the year's
/// count taken round twelve, but shifted in the spans in which the calendar
/// in force began its year in another month, and 12 at the two new moons that
/// closed such a span. `month_index` is the month's number in the count,
/// `new_moon_day` the Julian day number of its new moon.
pub open spec fn month_name_number(month_index: int, new_moon_day: int) -> int {
    if new_moon_day == 1729794 || new_moon_day == 1808699 {
        12
    } else if 1724360 <= new_moon_day <= 1729794 {
        (month_index + 1) % 12
    } else if 1807724 <= new_moon_day <= 1808699 {
        (month_index + 1) % 12
    } else if 1999349 <= new_moon_day <= 1999467 {
        (month_index + 2) % 12
    } else if 1973067 <= new_moon_day <= 1977052 {
        if month_index % 12 == 0 || month_index == 2 {
            2
        } else {
            month_index % 12
        }
    } else {
        month_index % 12
    }
}

/// The number under which a month is named.
pub fn calculate_month_name_number(month_index: i32, new_moon_day: i64) -> (number: i32)
    requires
        0 <= month_index <= 13,
    ensures
        number == month_name_number(month_index as int, new_moon_day as int),
        0 <= number <= 12,
{
    let dm: i64 = new_moon_day;
    let ym: i64 = month_index as i64;
    let mut mc: i64 = floor_mod(ym, 12);
    if dm >= 1724360 && dm <= 1729794 {
        mc = floor_mod(ym + 1, 12);
    } else if dm >= 1807724 && dm <= 1808699 {
        mc = floor_mod(ym + 1, 12);
    } else if dm >= 1999349 && dm <= 1999467 {
        mc = floor_mod(ym + 2, 12);
    } else if dm >= 1973067 && dm <= 1977052 {
        if floor_mod(ym, 12) == 0 {
            mc = 2;
        }
        if ym == 2 {
            mc = 2;
        }
    }
    if dm == 1729794 || dm == 1808699 {
        mc = 12;
    }
    mc as i32
}

} // verus!
