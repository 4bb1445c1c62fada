use sxtwl_rs::astronomy::{
    coefficient_count, coefficient_range, determine_delta_t_method, find_data_interval,
    quantity_index, DeltaTMethod, PrecessionModel, PrecessionQuantity,
};
use sxtwl_rs::builder::{
    char_digit, char_hex, chars_of, find_place, parse_day_gods_segment, parse_leap_month_text,
    parse_legal_holiday_data, parse_rab_byung_data, read_hex_pair, read_number, ProgressTracker,
};
use sxtwl_rs::holiday::LegalHolidayEntry;
use sxtwl_rs::rabbyung::RabByungMonthData;

fn months(table: &[RabByungMonthData]) -> Vec<(u16, u8, Vec<isize>)> {
    table.iter().map(|e| (e.year, e.month, e.days.clone())).collect()
}

#[test]
fn special_days_are_read() {
    // 'T' writes day 1, 'R' the day 1 left out; a comma ends a year.
    let table = parse_rab_byung_data("2c7,1P0").unwrap();
    assert_eq!(
        months(&table),
        vec![(1950, 11, vec![16, -28]), (1951, 0, vec![-3]), (1951, 1, vec![])]
    );
    assert_eq!(months(&parse_rab_byung_data("").unwrap()), vec![]);
    assert_eq!(months(&parse_rab_byung_data(",,").unwrap()), vec![]);
    assert_eq!(
        months(&parse_rab_byung_data(",,0").unwrap()),
        vec![(1952, 0, vec![])]
    );
    assert_eq!(
        months(&parse_rab_byung_data("1T1R").unwrap()),
        vec![(1950, 11, vec![1]), (1950, 12, vec![-1])]
    );
    // A month written shorter than its count ends at the comma or at the end.
    assert_eq!(
        months(&parse_rab_byung_data("3T,2q").unwrap()),
        vec![(1950, 11, vec![1]), (1951, 0, vec![30])]
    );
    // A count above nine is written by the characters after '9'.
    assert_eq!(
        months(&parse_rab_byung_data(":TTTTTTTTTT").unwrap()),
        vec![(1950, 11, vec![1; 10])]
    );
    assert_eq!(
        months(&parse_rab_byung_data("1年").unwrap()),
        vec![(1950, 11, vec![0x5e74 - 83])]
    );
}

#[test]
fn special_days_that_cannot_be_read() {
    // A count written by a character before '0'.
    assert!(parse_rab_byung_data("!").is_none());
    assert!(parse_rab_byung_data("1T,+").is_none());
    // More places in a year than an entry can hold.
    let long = "0".repeat(246);
    assert!(parse_rab_byung_data(&long).is_none());
    let fits = "0".repeat(245);
    assert_eq!(parse_rab_byung_data(&fits).unwrap().len(), 245);
    // More years than an entry can hold.
    let mut far = ",".repeat(65536 - 1950);
    assert!(parse_rab_byung_data(&far).is_some());
    far.push('0');
    assert!(parse_rab_byung_data(&far).is_none());
    let mut near = ",".repeat(65535 - 1950);
    near.push('0');
    assert_eq!(months(&parse_rab_byung_data(&near).unwrap()), vec![(65535, 0, vec![])]);
}

#[test]
fn decreed_days_are_read() {
    let table = parse_legal_holiday_data("2001122900+032011050113+00tail").unwrap();
    assert_eq!(
        table,
        vec![
            LegalHolidayEntry { year: 2001, month: 12, day: 29, work: true, index: 0 },
            LegalHolidayEntry { year: 2011, month: 5, day: 1, work: false, index: 3 },
        ]
    );
    assert_eq!(parse_legal_holiday_data("").unwrap(), vec![]);
    assert_eq!(parse_legal_holiday_data("200112290").unwrap(), vec![]);
    assert!(parse_legal_holiday_data("20x1122900+03").is_none());
    assert!(parse_legal_holiday_data("200112290a+03").is_none());
    assert!(parse_legal_holiday_data("2001122900+032011-50113+00").is_none());
    // Only '0' marks a day worked.
    let table = parse_legal_holiday_data("00010203x7___").unwrap();
    assert_eq!(
        table,
        vec![LegalHolidayEntry { year: 1, month: 2, day: 3, work: false, index: 7 }]
    );
}

#[test]
fn digits_and_numbers() {
    assert_eq!(char_digit('0'), Some(0));
    assert_eq!(char_digit('9'), Some(9));
    assert_eq!(char_digit('a'), None);
    assert_eq!(char_digit('٣'), None);
    let chars = chars_of("a9310年");
    assert_eq!(chars, vec!['a', '9', '3', '1', '0', '年']);
    assert_eq!(read_number(&chars, 1, 4), Some(9310));
    assert_eq!(read_number(&chars, 1, 2), Some(93));
    assert_eq!(read_number(&chars, 4, 1), Some(0));
    assert_eq!(read_number(&chars, 4, 0), Some(0));
    assert_eq!(read_number(&chars, 0, 2), None);
    assert_eq!(read_number(&chars, 4, 2), None);
}

#[test]
fn tracker_reports_nothing() {
    let mut progress = ProgressTracker::new();
    progress.start_stage("tables");
    progress.update_progress(1, 2, "reading");
    progress.complete_stage();
    progress.finish_build();
}

#[test]
fn coefficients_of_a_precession_quantity() {
    assert_eq!(coefficient_count(&PrecessionModel::IAU1976), 4);
    assert_eq!(coefficient_count(&PrecessionModel::IAU2000), 6);
    assert_eq!(coefficient_count(&PrecessionModel::P03), 6);
    assert_eq!(quantity_index(&PrecessionQuantity::Fi), 0);
    assert_eq!(quantity_index(&PrecessionQuantity::E), 4);
    assert_eq!(quantity_index(&PrecessionQuantity::P_), 8);
    assert_eq!(quantity_index(&PrecessionQuantity::Z_), 11);
    assert_eq!(coefficient_range(&PrecessionModel::IAU1976, &PrecessionQuantity::Fi), (0, 4));
    assert_eq!(coefficient_range(&PrecessionModel::IAU1976, &PrecessionQuantity::Z_), (44, 48));
    assert_eq!(coefficient_range(&PrecessionModel::P03, &PrecessionQuantity::E), (24, 30));
    assert_eq!(coefficient_range(&PrecessionModel::IAU2000, &PrecessionQuantity::Z_), (66, 72));
}

#[test]
fn parts_of_the_clock_correction() {
    // Years in thousandths: blocks from -4000, -500 and 1600, ending at 2050.
    let years: Vec<i64> = vec![-4_000_000, -500_000, 1_600_000, 2_050_000];
    assert_eq!(find_data_interval(&years, -5_000_000), 0);
    assert_eq!(find_data_interval(&years, -500_001), 0);
    assert_eq!(find_data_interval(&years, -500_000), 1);
    assert_eq!(find_data_interval(&years, 1_599_999), 1);
    assert_eq!(find_data_interval(&years, 1_600_000), 2);
    assert_eq!(find_data_interval(&years, 3_000_000), 2);
    assert_eq!(determine_delta_t_method(&years, 2_000_000), DeltaTMethod::Table { block: 2 });
    assert_eq!(determine_delta_t_method(&years, 2_049_999), DeltaTMethod::Table { block: 2 });
    assert_eq!(determine_delta_t_method(&years, 2_050_000), DeltaTMethod::Blend);
    assert_eq!(determine_delta_t_method(&years, 2_150_000), DeltaTMethod::Blend);
    assert_eq!(determine_delta_t_method(&years, 2_150_001), DeltaTMethod::Extrapolation);
    assert_eq!(determine_delta_t_method(&years, i64::MAX), DeltaTMethod::Extrapolation);
    assert_eq!(determine_delta_t_method(&years, i64::MIN), DeltaTMethod::Table { block: 0 });
    assert_eq!(determine_delta_t_method(&[0, i64::MIN], i64::MAX), DeltaTMethod::Extrapolation);
    assert_eq!(determine_delta_t_method(&[0, 10], 5), DeltaTMethod::Table { block: 0 });
}

#[test]
fn leap_month_texts_are_read() {
    let alphabet = "0123456789ABCDEFGHIJKLMNOPQRSTUVWXYZabcdefghijklmnopqrstuvwxyz_@";
    assert_eq!(alphabet.len(), 64);
    // Each pair writes a number in base 64; the sums are kept.
    assert_eq!(parse_leap_month_text(alphabet, "0100"), Some(vec![1, 1]));
    assert_eq!(parse_leap_month_text(alphabet, "1001@@"), Some(vec![64, 65, 65 + 4095]));
    assert_eq!(parse_leap_month_text(alphabet, ""), Some(vec![]));
    assert_eq!(parse_leap_month_text(alphabet, "010"), None);
    assert_eq!(parse_leap_month_text(alphabet, "01-0"), None);
    assert_eq!(parse_leap_month_text(alphabet, "0-"), None);
    assert_eq!(parse_leap_month_text("", "00"), None);
    assert_eq!(parse_leap_month_text("", ""), Some(vec![]));
    // Where a character stands twice in the alphabet its first place counts.
    assert_eq!(parse_leap_month_text("aba", "ab"), Some(vec![1]));
    let letters = chars_of(alphabet);
    assert_eq!(find_place(&letters, '0'), 0);
    assert_eq!(find_place(&letters, '@'), 63);
    assert_eq!(find_place(&letters, '#'), 64);
    // Sums that do not fit 32 bits are not taken.
    let mut alphabet = "a".repeat(9_999);
    alphabet.push('年');
    let text = "年年".repeat(3_304);
    assert_eq!(
        parse_leap_month_text(&alphabet, &text).unwrap().last().copied(),
        Some(3_304 * 65 * 9_999)
    );
    let text = "年年".repeat(3_305);
    assert!(parse_leap_month_text(&alphabet, &text).is_none());
}

#[test]
fn day_gods_are_read() {
    assert_eq!(parse_day_gods_segment("0a0102ff"), Some((10, vec![1, 2, 255])));
    assert_eq!(parse_day_gods_segment("3B7f"), Some((59, vec![127])));
    assert_eq!(parse_day_gods_segment("3c7f"), None);
    assert_eq!(parse_day_gods_segment("0a"), None);
    assert_eq!(parse_day_gods_segment("0"), None);
    assert_eq!(parse_day_gods_segment(""), None);
    assert_eq!(parse_day_gods_segment("g001"), None);
    // A pair that writes no byte and a character left over are passed over.
    assert_eq!(parse_day_gods_segment("00zz051"), Some((0, vec![5])));
    assert_eq!(parse_day_gods_segment("00zz"), None);
    assert_eq!(parse_day_gods_segment("00年01"), None);
    // A plus sign may stand for the first digit.
    assert_eq!(parse_day_gods_segment("+5+a"), Some((5, vec![10])));
    assert_eq!(parse_day_gods_segment("5+01"), None);
    assert_eq!(read_hex_pair('f', 'F'), Some(255));
    assert_eq!(read_hex_pair('+', '+'), None);
    assert_eq!(read_hex_pair('-', '1'), None);
    assert_eq!(char_hex('a'), Some(10));
    assert_eq!(char_hex('G'), None);
    // The same bytes as the number parser of the standard library reads.
    for a in ['0', '9', 'a', 'F', '+', '-', 'g', ' '] {
        for b in ['0', '7', 'c', 'E', '+', 'x'] {
            let text: String = [a, b].iter().collect();
            assert_eq!(read_hex_pair(a, b), u8::from_str_radix(&text, 16).ok());
        }
    }
}
