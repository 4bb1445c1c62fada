use sxtwl_rs::festival::{
    lunar_festival_name, lunar_festival_table, solar_festival_table, FestivalType,
    LunarFestivalVariant, SolarFestival,
};
use sxtwl_rs::solar::SolarDay;

#[test]
fn festival_test5() {
    let f: Option<SolarFestival> = SolarFestival::from_index(2023, 0);
    assert_eq!(false, f.is_none());
    assert_eq!(
        "2024年5月1日 五一劳动节",
        f.unwrap().next(13).unwrap().to_string()
    );
    assert_eq!(
        "2022年8月1日 八一建军节",
        f.unwrap().next(-3).unwrap().to_string()
    );
}

#[test]
fn festival_test6() {
    let f: Option<SolarFestival> = SolarFestival::from_index(2023, 0);
    assert_eq!(false, f.is_none());
    assert_eq!(
        "2022年3月8日 三八妇女节",
        f.unwrap().next(-9).unwrap().to_string()
    );
}

#[test]
fn festival_test7() {
    let f: Option<SolarFestival> = SolarDay::from_ymd(2010, 1, 1).get_festival();
    assert_eq!(false, f.is_none());
    assert_eq!("2010年1月1日 元旦", f.unwrap().to_string());
}

#[test]
fn festival_test8() {
    let f: Option<SolarFestival> = SolarDay::from_ymd(2021, 5, 4).get_festival();
    assert_eq!(false, f.is_none());
    assert_eq!("2021年5月4日 五四青年节", f.unwrap().to_string());
}

#[test]
fn festival_test9() {
    let f: Option<SolarFestival> = SolarDay::from_ymd(1939, 5, 4).get_festival();
    assert_eq!(true, f.is_none());
}

#[test]
fn solar_festival_lookups() {
    assert!(SolarFestival::from_ymd(2000, 2, 2).is_none());
    assert!(SolarFestival::from_ymd(1949, 10, 1).is_none());
    assert!(SolarFestival::from_index(2000, 10).is_none());
    assert!(SolarFestival::from_index(1978, 2).is_none());
    let tree = SolarFestival::from_index(1979, 2).unwrap();
    assert_eq!(tree.get_index(), 2);
    assert_eq!(tree.get_start_year(), 1979);
    assert_eq!(tree.get_type(), FestivalType::DAY);
    assert_eq!(tree.get_day(), SolarDay::from_ymd(1979, 3, 12));
    assert_eq!(tree.get_name(), "植树节");
    let national = SolarFestival::from_ymd(1950, 10, 1).unwrap();
    assert_eq!(national.get_index(), 9);
    assert_eq!(national.next(1).unwrap().to_string(), "1951年1月1日 元旦");
    assert!(national.next(-1).is_none());
    assert!(national.next(-30000).is_none());
    assert_eq!(national.next(0).unwrap(), national);
}

#[test]
fn festival_tables() {
    let solar = solar_festival_table();
    assert_eq!(solar.len(), 10);
    assert_eq!((solar[8].month, solar[8].day, solar[8].start_year), (9, 10, 1985));
    let lunar = lunar_festival_table();
    assert_eq!(lunar.len(), 13);
    assert_eq!(lunar[4].variant, LunarFestivalVariant::SolarTerm { term_index: 7 });
    assert_eq!(lunar[11].variant, LunarFestivalVariant::Fixed { month: 12, day: 8 });
    assert_eq!(lunar[12].variant, LunarFestivalVariant::NewYearEve);
    assert_eq!(lunar_festival_name(0), "春节");
    assert_eq!(lunar_festival_name(12), "除夕");
}
