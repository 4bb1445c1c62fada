use sxtwl_rs::builder::parse_legal_holiday_data;
use sxtwl_rs::holiday::{
    find_entry, is_valid_holiday_table, legal_holiday_name, LegalHoliday, LegalHolidayEntry,
};
use sxtwl_rs::solar::SolarDay;

// The decreed days around the dates asked for, as the table of such days is
// written: the date, '0' for a day worked, the holiday, and three characters
// that the table does not take up.
fn table() -> Vec<LegalHolidayEntry> {
    let data = [
        "2001122900+03",
        "2010100116+00",
        "2011040512+00",
        "2011043013-01",
        "2011050113+00",
        "2011050213+01",
        "2011060414+00",
        "2022100416-03",
        "2022100516-04",
        "2022100616-05",
    ]
    .concat();
    parse_legal_holiday_data(&data).unwrap()
}

#[test]
fn holiday_test1() {
    let t = table();
    let d: LegalHoliday = LegalHoliday::from_ymd(&t, 2011, 5, 1).unwrap();
    assert_eq!("2011年5月1日 劳动节(休)", d.to_string());
    assert_eq!("2011年5月2日 劳动节(休)", d.next(1, &t).unwrap().to_string());
    assert_eq!("2011年6月4日 端午节(休)", d.next(2, &t).unwrap().to_string());
    assert_eq!("2011年4月30日 劳动节(休)", d.next(-1, &t).unwrap().to_string());
    assert_eq!("2011年4月5日 清明节(休)", d.next(-2, &t).unwrap().to_string());
}

#[test]
fn holiday_test2() {
    let t = table();
    let d: LegalHoliday = LegalHoliday::from_ymd(&t, 2001, 12, 29).unwrap();
    assert_eq!("2001年12月29日 元旦节(班)", d.to_string());
    assert_eq!(true, d.next(-1, &t).is_none());
}

#[test]
fn holiday_test3() {
    let t = table();
    let d: LegalHoliday = LegalHoliday::from_ymd(&t, 2022, 10, 5).unwrap();
    assert_eq!("2022年10月5日 国庆节(休)", d.to_string());
    assert_eq!("2022年10月4日 国庆节(休)", d.next(-1, &t).unwrap().to_string());
    assert_eq!("2022年10月6日 国庆节(休)", d.next(1, &t).unwrap().to_string());
}

#[test]
fn holiday_test4() {
    let t = table();
    let d: LegalHoliday = LegalHoliday::from_ymd(&t, 2010, 10, 1).unwrap();
    assert_eq!("2010年10月1日 国庆节(休)", d.to_string());
}

#[test]
fn decreed_days_by_table() {
    let t = table();
    assert!(is_valid_holiday_table(&t));
    assert_eq!(t.len(), 10);
    assert_eq!(
        t[0],
        LegalHolidayEntry { year: 2001, month: 12, day: 29, work: true, index: 0 }
    );
    assert_eq!(find_entry(&t, 2011, 5, 1), 4);
    assert_eq!(find_entry(&t, 2011, 5, 3), 10);
    assert_eq!(find_entry(&t, 70000, 5, 1), 10);
    assert!(LegalHoliday::from_ymd(&t, 2011, 5, 3).is_none());
    assert!(LegalHoliday::from_ymd(&[], 2011, 5, 1).is_none());
    let last = LegalHoliday::from_ymd(&t, 2022, 10, 6).unwrap();
    assert!(last.next(1, &t).is_none());
    assert!(last.next(isize::MAX, &t).is_none());
    assert!(last.next(isize::MIN, &t).is_none());
    assert_eq!(last.next(0, &t), Some(last));
    assert_eq!(last.next(-9, &t).unwrap().get_day(), SolarDay::from_ymd(2001, 12, 29));
    assert!(last.next(-9, &t).unwrap().is_work());
    assert!(!last.is_work());
    assert_eq!(last.get_index(), 6);
    assert_eq!(last.get_name(), "国庆节");
    // A day that the table does not hold has no neighbours in it.
    assert!(last.next(-1, &t[..5]).is_none());
    // Where a date stands twice, its first entry is the one found.
    let twice = vec![
        LegalHolidayEntry { year: 2020, month: 1, day: 1, work: false, index: 0 },
        LegalHolidayEntry { year: 2020, month: 1, day: 2, work: false, index: 1 },
        LegalHolidayEntry { year: 2020, month: 1, day: 1, work: true, index: 8 },
    ];
    let second = LegalHoliday::from_ymd(&twice, 2020, 1, 2).unwrap();
    let found = second.next(1, &twice).unwrap();
    assert_eq!(found.to_string(), "2020年1月1日 元旦节(休)");
    assert_eq!(legal_holiday_name(8), "抗战胜利日");
    assert_eq!(legal_holiday_name(7), "国庆中秋");
}

#[test]
fn tables_that_are_refused() {
    assert!(is_valid_holiday_table(&[]));
    assert!(!is_valid_holiday_table(&[LegalHolidayEntry {
        year: 2023,
        month: 2,
        day: 29,
        work: false,
        index: 0
    }]));
    assert!(!is_valid_holiday_table(&[LegalHolidayEntry {
        year: 2024,
        month: 2,
        day: 29,
        work: false,
        index: 9
    }]));
    assert!(!is_valid_holiday_table(&[LegalHolidayEntry {
        year: 20000,
        month: 2,
        day: 1,
        work: false,
        index: 0
    }]));
    assert!(is_valid_holiday_table(&[LegalHolidayEntry {
        year: 2024,
        month: 2,
        day: 29,
        work: false,
        index: 8
    }]));
}
