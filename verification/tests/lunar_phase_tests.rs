use sxtwl_rs::lunar_phase_calculator::{find_leap_month, LunarPhaseCalculator};
use sxtwl_rs::astronomy::{calculate_lunar_series_limit, calculate_series_limit};
use sxtwl_rs::ssq::calculate_month_name_number;

fn terms() -> [i64; 25] {
    // Solar terms about 15.2184 days apart, in half-days.
    let mut jieqi = [0i64; 25];
    for i in 0..25 {
        jieqi[i] = (i as i64 * 152_184) / 5000;
    }
    jieqi
}

#[test]
fn leap_month_of_a_fixture() {
    // The 14th new moon is before the 25th term, and the new moon after month 6
    // does not pass term 12, while the months before each hold their mid-term.
    let jieqi = terms();
    let mut shuo = [0i64; 14];
    for i in 0..14 {
        shuo[i] = -20 + i as i64 * 55;
    }
    assert!(shuo[13] <= jieqi[24]);
    for i in 1..6 {
        assert!(shuo[i + 1] > jieqi[2 * i]);
    }
    assert!(shuo[7] <= jieqi[12]);
    let year = LunarPhaseCalculator::from_events(jieqi, [-61, -30], shuo);
    assert_eq!(year.leap_month, Some(6));
    assert_eq!(find_leap_month(&jieqi, &shuo), 6);
    for j in 0..6 {
        assert_eq!(year.month_indices[j], j as i32);
    }
    for j in 7..14 {
        assert_eq!(year.month_indices[j], j as i32 - 1);
    }
    assert_eq!(year.month_indices[6], 5);
    for j in 0..13 {
        assert_eq!(year.month_lengths[j], 55);
    }
    assert_eq!(year.month_lengths[13], 0);
    assert_eq!(year.jieqi, jieqi);
    assert_eq!(year.pre_jieqi, [-61, -30]);
    assert_eq!(year.shuo, shuo);
}

#[test]
fn year_without_leap_month() {
    let jieqi = terms();
    let mut shuo = [0i64; 14];
    for i in 0..14 {
        shuo[i] = -2 + i as i64 * 59;
    }
    assert!(shuo[13] > jieqi[24]);
    let year = LunarPhaseCalculator::from_events(jieqi, [-61, -30], shuo);
    assert_eq!(year.leap_month, None);
    for j in 0..14 {
        assert_eq!(year.month_indices[j], j as i32);
    }
}

#[test]
fn leap_month_at_the_ends() {
    let jieqi = terms();
    // No month from 1 to 12 lacks its mid-term: the scan ends at 13.
    let mut shuo = [0i64; 14];
    for i in 0..14 {
        shuo[i] = 1000 + i as i64;
    }
    assert_eq!(find_leap_month(&jieqi, &shuo), 13);
    // In a year with a leap month the 14th new moon is not after the 25th
    // term, so month 12 is the last that can be the leap month.
    shuo[13] = jieqi[24];
    assert_eq!(find_leap_month(&jieqi, &shuo), 12);
    let year = LunarPhaseCalculator::from_events(jieqi, [0, 0], shuo);
    assert_eq!(year.leap_month, Some(12));
    assert_eq!(year.month_indices[11], 11);
    assert_eq!(year.month_indices[12], 11);
    assert_eq!(year.month_indices[13], 12);
    // Month 1 already lacks it.
    let shuo = [-10i64; 14];
    assert_eq!(find_leap_month(&jieqi, &shuo), 1);
    let year = LunarPhaseCalculator::from_events(jieqi, [0, 0], shuo);
    assert_eq!(year.leap_month, Some(1));
    assert_eq!(year.month_indices[0], 0);
    assert_eq!(year.month_indices[1], 0);
    assert_eq!(year.month_indices[13], 12);
    // A new moon exactly on the term does not hold it.
    let mut shuo = [0i64; 14];
    for i in 0..14 {
        shuo[i] = 10_000;
    }
    shuo[4] = jieqi[6];
    shuo[13] = 0;
    assert_eq!(find_leap_month(&jieqi, &shuo), 3);
}

#[test]
fn steps_of_the_year() {
    let jieqi = terms();
    let mut shuo = [0i64; 14];
    for i in 0..14 {
        shuo[i] = -20 + i as i64 * 55;
    }
    let mut year = LunarPhaseCalculator {
        jieqi,
        pre_jieqi: [0, 0],
        shuo,
        month_indices: [7; 14],
        month_lengths: [9; 14],
        leap_month: None,
    };
    year.calculate_month_properties();
    assert_eq!(year.month_lengths[0], 55);
    assert_eq!(year.month_lengths[13], 0);
    assert_eq!(year.month_indices[13], 13);
    assert_eq!(year.leap_month, None);
    year.determine_leap_month();
    assert_eq!(year.leap_month, Some(6));
    assert_eq!(year.month_indices[13], 12);
}

#[test]
fn month_names_of_the_early_calendars() {
    assert_eq!(calculate_month_name_number(0, 2_451_545), 0);
    assert_eq!(calculate_month_name_number(13, 2_451_545), 1);
    assert_eq!(calculate_month_name_number(11, 1_724_360), 0);
    assert_eq!(calculate_month_name_number(3, 1_729_793), 4);
    assert_eq!(calculate_month_name_number(3, 1_729_794), 12);
    assert_eq!(calculate_month_name_number(3, 1_729_795), 3);
    assert_eq!(calculate_month_name_number(5, 1_807_724), 6);
    assert_eq!(calculate_month_name_number(5, 1_808_699), 12);
    assert_eq!(calculate_month_name_number(11, 1_999_349), 1);
    assert_eq!(calculate_month_name_number(4, 1_999_467), 6);
    assert_eq!(calculate_month_name_number(4, 1_999_468), 4);
    assert_eq!(calculate_month_name_number(0, 1_973_067), 2);
    assert_eq!(calculate_month_name_number(12, 1_977_052), 2);
    assert_eq!(calculate_month_name_number(2, 1_975_000), 2);
    assert_eq!(calculate_month_name_number(5, 1_975_000), 5);
}

#[test]
fn limits_of_the_series() {
    // Every term for a negative count.
    assert_eq!(calculate_series_limit(-1, 100, 400, 300, 0), 400);
    assert_eq!(calculate_series_limit(-1, 100, 400, 300, 3), 400);
    // round(3 n size / first) coefficients from the start, three more past the first order.
    assert_eq!(calculate_series_limit(0, 100, 400, 300, 0), 100);
    assert_eq!(calculate_series_limit(0, 100, 400, 300, 1), 103);
    assert_eq!(calculate_series_limit(10, 100, 400, 300, 0), 130);
    assert_eq!(calculate_series_limit(10, 400, 550, 300, 1), 418);
    assert_eq!(calculate_series_limit(7, 400, 550, 300, 1), 414);
    assert_eq!(calculate_series_limit(1000, 100, 400, 300, 0), 400);
    assert_eq!(calculate_series_limit(i32::MAX, 100, 400, 300, 2), 400);
    // An order without terms.
    assert_eq!(calculate_series_limit(5, 400, 400, 300, 4), 400);
    // The moon: 6 n coefficients of the first group, six more in the others.
    assert_eq!(calculate_lunar_series_limit(-1, 600, 300, 0), 600);
    assert_eq!(calculate_lunar_series_limit(0, 600, 300, 0), 0);
    assert_eq!(calculate_lunar_series_limit(0, 600, 300, 1), 6);
    assert_eq!(calculate_lunar_series_limit(20, 300, 300, 0), 120);
    assert_eq!(calculate_lunar_series_limit(20, 100, 300, 1), 46);
    assert_eq!(calculate_lunar_series_limit(3, 100, 300, 2), 12);
    assert_eq!(calculate_lunar_series_limit(60, 300, 300, 0), 300);
    let mut last = 0;
    for n in 0..200 {
        let limit = calculate_series_limit(n, 400, 550, 300, 1);
        assert!(limit >= last && limit <= 550);
        last = limit;
    }
}
