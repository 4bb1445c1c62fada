use sxtwl_rs::culture::{index_after, index_of, same_text, Direction, Element, Zodiac};
use sxtwl_rs::error::CalendarError;
use sxtwl_rs::sixtycycle::{EarthBranch, HeavenStem, SixtyCycle};
use sxtwl_rs::solar::{SolarDay, SolarMonth, SolarYear};
use sxtwl_rs::text::{append_decimal, append_signed_decimal, digit_to_char};
use sxtwl_rs::types::LunarDate;

#[test]
fn years_months_and_their_lengths() {
    assert!(SolarYear::from_year(2000).is_leap());
    assert!(!SolarYear::from_year(1900).is_leap());
    assert!(SolarYear::from_year(1500).is_leap());
    assert!(!SolarYear::from_year(2023).is_leap());
    assert_eq!(SolarYear::from_year(1582).get_day_count(), 355);
    assert_eq!(SolarYear::from_year(2024).get_day_count(), 366);
    assert_eq!(SolarYear::from_year(2023).get_day_count(), 365);
    assert_eq!(SolarYear::from_year(2023).get_name(), "2023年");
    assert_eq!(SolarYear::from_year(1).get_name(), "1年");
    assert_eq!(SolarYear::from_year(2023).next(-23).get_year(), 2000);
    assert_eq!(SolarMonth::from_ym(1582, 10).get_day_count(), 21);
    assert_eq!(SolarMonth::from_ym(2024, 2).get_day_count(), 29);
    assert_eq!(SolarMonth::from_ym(2023, 2).get_day_count(), 28);
    assert_eq!(SolarMonth::from_ym(2023, 4).get_day_count(), 30);
    assert_eq!(SolarMonth::from_ym(2023, 12).get_day_count(), 31);
    let m = SolarMonth::from_ym(2023, 11);
    assert_eq!((m.next(2).get_year(), m.next(2).get_month()), (2024, 1));
    assert_eq!((m.next(-11).get_year(), m.next(-11).get_month()), (2022, 12));
    assert_eq!((m.next(0).get_year(), m.next(0).get_month()), (2023, 11));
    assert_eq!((m.next(-23).get_year(), m.next(-23).get_month()), (2021, 12));
}

#[test]
fn days_and_their_numbers() {
    assert_eq!(SolarDay::from_ymd(2000, 1, 1).get_day_number(), 2_451_545);
    assert_eq!(SolarDay::from_ymd(1, 1, 1).get_day_number(), 1_721_424);
    assert_eq!(SolarDay::from_ymd(1582, 10, 4).get_day_number(), 2_299_160);
    assert_eq!(SolarDay::from_ymd(1582, 10, 15).get_day_number(), 2_299_161);
    assert_eq!(SolarDay::from_ymd(9999, 12, 31).get_day_number(), 5_373_484);
    assert_eq!(SolarDay::from_ymd(1951, 1, 8).get_day_number(), 2_433_655);
    let a = SolarDay::from_ymd(2024, 3, 1);
    let b = SolarDay::from_ymd(2024, 2, 28);
    assert_eq!(a.subtract(b), 2);
    assert_eq!(b.subtract(a), -2);
    assert!(a.is_after(b));
    assert!(b.is_before(a));
    assert!(!a.is_before(a));
    assert_eq!(b.next(2), a);
    assert_eq!(a.next(-2), b);
    assert_eq!(a.next(0), a);
    assert_eq!(SolarDay::from_ymd(1582, 10, 4).next(1), SolarDay::from_ymd(1582, 10, 15));
    assert_eq!(SolarDay::from_ymd(1582, 10, 15).next(-1), SolarDay::from_ymd(1582, 10, 4));
    assert_eq!(SolarDay::from_ymd(1582, 10, 1).next(20), SolarDay::from_ymd(1582, 10, 31));
    assert_eq!(SolarDay::from_ymd(1582, 10, 1).next(21), SolarDay::from_ymd(1582, 11, 1));
    assert_eq!(SolarDay::from_ymd(2023, 12, 31).next(1), SolarDay::from_ymd(2024, 1, 1));
    assert_eq!(SolarDay::from_ymd(2024, 1, 1).next(-1), SolarDay::from_ymd(2023, 12, 31));
    assert_eq!(SolarDay::from_ymd(1, 1, 1).next(3_652_060), SolarDay::from_ymd(9999, 12, 31));
    assert_eq!(SolarDay::from_ymd(9999, 12, 31).next(-3_652_060), SolarDay::from_ymd(1, 1, 1));
    assert_eq!(SolarDay::from_ymd(2000, 1, 1).next(10_000), SolarDay::from_ymd(2027, 5, 19));
    let d = SolarDay::from_ymd(2024, 5, 1);
    assert_eq!((d.get_year(), d.get_month(), d.get_day()), (2024, 5, 1));
    assert_eq!(d.get_name(), "2024年5月1日");
    assert_eq!(d.to_string(), "2024年5月1日");
    assert_eq!(d.get_solar_month(), SolarMonth::from_ym(2024, 5));
}

#[test]
fn days_that_exist() {
    assert!(SolarDay::is_valid(2024, 2, 29));
    assert!(!SolarDay::is_valid(2023, 2, 29));
    assert!(!SolarDay::is_valid(1900, 2, 29));
    assert!(SolarDay::is_valid(1500, 2, 29));
    assert!(SolarDay::is_valid(1582, 10, 4));
    assert!(!SolarDay::is_valid(1582, 10, 5));
    assert!(!SolarDay::is_valid(1582, 10, 14));
    assert!(SolarDay::is_valid(1582, 10, 15));
    assert!(SolarDay::is_valid(1582, 10, 31));
    assert!(!SolarDay::is_valid(1582, 10, 32));
    assert!(!SolarDay::is_valid(0, 1, 1));
    assert!(!SolarDay::is_valid(10000, 1, 1));
    assert!(!SolarDay::is_valid(2000, 0, 1));
    assert!(!SolarDay::is_valid(2000, 13, 1));
    assert!(!SolarDay::is_valid(2000, 1, 0));
    assert!(!SolarDay::is_valid(2000, 4, 31));
}

#[test]
fn numbers_in_writing() {
    let mut s = String::from("n=");
    append_decimal(&mut s, 0);
    append_decimal(&mut s, 907);
    assert_eq!(s, "n=0907");
    let mut s = String::new();
    append_signed_decimal(&mut s, -45);
    append_signed_decimal(&mut s, 12);
    assert_eq!(s, "-4512");
    let mut s = String::new();
    append_signed_decimal(&mut s, isize::MIN);
    assert_eq!(s, format!("{}", isize::MIN));
    let mut s = String::new();
    append_decimal(&mut s, usize::MAX);
    assert_eq!(s, format!("{}", usize::MAX));
    assert_eq!(digit_to_char(0), '0');
    assert_eq!(digit_to_char(9), '9');
}

#[test]
fn lunar_dates_in_writing() {
    assert_eq!(LunarDate::new(2024, 1, 1, false).year_to_chinese(), "二零二四年");
    assert_eq!(LunarDate::new(-721, 1, 1, false).year_to_chinese(), "前七二一年");
    assert_eq!(LunarDate::new(0, 1, 1, false).year_to_chinese(), "零");
    assert_eq!(LunarDate::new(7, 1, 1, false).year_to_chinese(), "七年");
    assert_eq!(LunarDate::new(90, 1, 1, false).year_to_chinese(), "九零年");
    assert_eq!(LunarDate::new(105, 1, 1, false).year_to_chinese(), "一零五年");
    assert_eq!(LunarDate::new(9999, 1, 1, false).year_to_chinese(), "九九九九年");
    assert_eq!(LunarDate::new(-9999, 1, 1, false).year_to_chinese(), "前九九九九年");
    assert_eq!(LunarDate::new(2024, 1, 1, false).month_to_chinese(), "正月");
    assert_eq!(LunarDate::new(2024, 5, 1, true).month_to_chinese(), "闰五月");
    assert_eq!(LunarDate::new(2024, 11, 1, false).month_to_chinese(), "冬月");
    assert_eq!(LunarDate::new(2024, 12, 1, false).month_to_chinese(), "腊月");
    assert_eq!(LunarDate::new(2024, 0, 1, true).month_to_chinese(), "");
    assert_eq!(LunarDate::new(2024, 13, 1, false).month_to_chinese(), "");
    assert_eq!(LunarDate::new(2024, 1, 1, false).day_to_chinese(), "初一");
    assert_eq!(LunarDate::new(2024, 1, 20, false).day_to_chinese(), "二十");
    assert_eq!(LunarDate::new(2024, 1, 30, false).day_to_chinese(), "三十");
    assert_eq!(LunarDate::new(2024, 1, 0, false).day_to_chinese(), "");
    assert_eq!(LunarDate::new(2024, 1, 31, false).day_to_chinese(), "");
    assert_eq!(LunarDate::new(2024, 5, 6, true).to_string(), "2024-闰05-06");
    assert_eq!(LunarDate::new(-721, 12, 30, false).to_string(), "-721-12-30");
    assert_eq!(LunarDate::new(0, 0, 255, false).to_string(), "0-00-255");
    let d = LunarDate::new(2024, 5, 6, true);
    assert_eq!((d.year, d.month, d.day, d.is_leap_month), (2024, 5, 6, true));
}

#[test]
fn cycles_of_names() {
    assert_eq!(index_of(-1, 12), 11);
    assert_eq!(index_of(25, 12), 1);
    assert_eq!(index_of(isize::MIN, 7), (isize::MIN).rem_euclid(7) as usize);
    assert_eq!(index_after(11, 1, 12), 0);
    assert_eq!(index_after(0, -1, 12), 11);
    assert_eq!(index_after(3, isize::MAX, 10), ((3 + (isize::MAX % 10)) % 10) as usize);
    assert!(same_text("铁", "铁"));
    assert!(!same_text("铁", "金"));
    assert!(!same_text("", "金"));
    assert_eq!(Element::from_name("金").get_index(), 3);
    assert_eq!(Element::from_name("水").get_index(), 4);
    assert_eq!(Element::from_index(5).get_name(), "木");
    assert_eq!(Element::from_index(1).get_reinforce().get_name(), "土");
    assert_eq!(Element::from_index(1).get_restrain().get_name(), "金");
    assert_eq!(Element::from_index(1).get_reinforced().get_name(), "木");
    assert_eq!(Element::from_index(1).get_restrained().get_name(), "水");
    assert_eq!(Element::from_index(1).get_direction().get_name(), "南");
    assert_eq!(Element::from_index(2).get_direction().get_name(), "中");
    assert_eq!(Element::from_index(4).get_direction().get_name(), "北");
    assert_eq!(Direction::from_name("东北").get_index(), 7);
    assert_eq!(Direction::from_index(8).next(1).get_name(), "北");
    assert_eq!(Direction::from_index(0).get_size(), 9);
    assert_eq!(Zodiac::from_name("猪").get_index(), 11);
    assert_eq!(Zodiac::from_index(-1).get_name(), "猪");
    assert_eq!(Zodiac::from_index(0).next(-13).get_name(), "猪");
    assert_eq!(HeavenStem::from_name("丁").get_index(), 3);
    assert_eq!(HeavenStem::from_index(3).get_element().get_name(), "火");
    assert_eq!(HeavenStem::from_index(9).get_element().get_name(), "水");
    assert_eq!(EarthBranch::from_name("卯").get_zodiac().get_name(), "兔");
    let pair = SixtyCycle::from_index(3);
    assert_eq!(pair.get_name(), "丁卯");
    assert_eq!(pair.get_heaven_stem().get_name(), "丁");
    assert_eq!(pair.get_earth_branch().get_name(), "卯");
    assert_eq!(SixtyCycle::from_index(-1).get_name(), "癸亥");
    assert_eq!(SixtyCycle::from_index(59).next(2).get_index(), 1);
    assert_eq!(SixtyCycle::from_index(2023 - 4).get_name(), "癸卯");
}

#[test]
fn error_messages() {
    assert_eq!(CalendarError::InvalidDate("2月30日".to_string()).message(), "无效日期: 2月30日");
    assert_eq!(CalendarError::InvalidNumber("x".to_string()).message(), "无效数字: x");
    assert_eq!(CalendarError::InvalidGanZhi.message(), "无效的天干地支索引");
    assert_eq!(CalendarError::InvalidLunarMonth.message(), "无效的农历月份");
    assert_eq!(CalendarError::InvalidLunarDay.message(), "无效的农历日期");
    assert_eq!(CalendarError::InvalidWeek.message(), "无效的星期索引");
    assert_eq!(
        CalendarError::JulianConversionError("r".to_string()).message(),
        "儒略日转换失败: r"
    );
    assert_eq!(
        CalendarError::JieQiCalculationError("q".to_string()).message(),
        "节气计算失败: q"
    );
    assert_eq!(CalendarError::AllocationError.message(), "内存分配失败");
    assert_eq!(CalendarError::InvalidWeek, CalendarError::InvalidWeek);
}
