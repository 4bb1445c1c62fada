use sxtwl_rs::date::{
    find_lunar_month, get_lunar_month, get_week, get_week_index, locate_lunar_day,
};
use sxtwl_rs::lunar_phase_calculator::LunarPhaseCalculator;

#[test]
fn days_of_the_week() {
    // 1 January 2000 was a Saturday.
    assert_eq!(get_week(0), 6);
    assert_eq!(get_week(1), 0);
    assert_eq!(get_week(-1), 5);
    assert_eq!(get_week(7), 6);
    assert_eq!(get_week(-7), 6);
    // 28 October 2026 is a Wednesday.
    assert_eq!(get_week(9797), 3);
    assert_eq!(get_week(i32::MAX), ((i32::MAX as i64 + 2_451_546) % 7) as u8);
    assert_eq!(get_week(i32::MIN), (i32::MIN as i64 + 2_451_546).rem_euclid(7) as u8);
}

#[test]
fn weeks_of_the_month() {
    // The 1st is always in the first week.
    for week in 0..7 {
        assert_eq!(get_week_index(1, week), 1);
    }
    // A month that begins on a Saturday: the 2nd is a Sunday of the second week.
    assert_eq!(get_week_index(2, 0), 2);
    assert_eq!(get_week_index(8, 6), 2);
    assert_eq!(get_week_index(31, 1), 6);
    // A month that begins on a Sunday.
    assert_eq!(get_week_index(7, 6), 1);
    assert_eq!(get_week_index(8, 0), 2);
    assert_eq!(get_week_index(28, 6), 4);
    assert_eq!(get_week_index(31, 2), 5);
}

#[test]
fn numbers_of_the_lunar_months() {
    assert_eq!(get_lunar_month(0), 10);
    assert_eq!(get_lunar_month(1), 11);
    assert_eq!(get_lunar_month(2), 12);
    assert_eq!(get_lunar_month(3), 1);
    assert_eq!(get_lunar_month(13), 11);
}

#[test]
fn the_month_that_holds_a_day() {
    let mut shuo = [0i64; 14];
    for i in 0..14 {
        shuo[i] = 100 + 59 * i as i64;
    }
    assert_eq!(find_lunar_month(&shuo, 0), 0);
    assert_eq!(find_lunar_month(&shuo, 100), 0);
    assert_eq!(find_lunar_month(&shuo, 158), 0);
    assert_eq!(find_lunar_month(&shuo, 159), 1);
    assert_eq!(find_lunar_month(&shuo, 100 + 59 * 13 - 1), 12);
    assert_eq!(find_lunar_month(&shuo, 100 + 59 * 13), 13);
    assert_eq!(find_lunar_month(&shuo, i64::MAX), 13);
    let mut jieqi = [0i64; 25];
    for i in 0..25 {
        jieqi[i] = 100 + 31 * i as i64;
    }
    let year = LunarPhaseCalculator::from_events(jieqi, [38, 69], shuo);
    assert_eq!(year.leap_month, None);
    let info = locate_lunar_day(&year, 170);
    assert_eq!(info.place, 1);
    assert_eq!(info.month_index, 1);
    assert_eq!(info.month_length, 59);
    assert_eq!(info.offset, 11);
    assert!(!info.is_leap);
    let mut shuo = [0i64; 14];
    for i in 0..14 {
        shuo[i] = 100 + 55 * i as i64;
    }
    let year = LunarPhaseCalculator::from_events(jieqi, [38, 69], shuo);
    let leap = year.leap_month.unwrap();
    let info = locate_lunar_day(&year, shuo[leap as usize] + 3);
    assert!(info.is_leap);
    assert_eq!(info.place, leap as usize);
    assert_eq!(info.month_index, leap - 1);
    assert_eq!(info.offset, 3);
    assert!(!locate_lunar_day(&year, shuo[leap as usize] - 1).is_leap);
}
