use sxtwl_rs::culture::Zodiac;
use sxtwl_rs::rabbyung::{
    get_rab_byung_month_days, RabByungDay, RabByungElement, RabByungMonth, RabByungMonthData,
    RabByungYear,
};
use sxtwl_rs::sixtycycle::SixtyCycle;
use sxtwl_rs::solar::SolarDay;

#[test]
fn test0() {
    let y: RabByungYear = RabByungYear::from_element_zodiac(
        0,
        RabByungElement::from_name("火"),
        Zodiac::from_name("兔"),
    )
    .unwrap();
    assert_eq!("第一饶迥火兔年", y.get_name());
    assert_eq!("1027年", y.get_solar_year().get_name());
    assert_eq!("丁卯", y.get_sixty_cycle().get_name());
    assert_eq!(10, y.get_leap_month());
}

#[test]
fn rabbyung_test1() {
    assert_eq!(
        "第一饶迥火兔年",
        RabByungYear::from_year(1027).unwrap().get_name()
    );
}

#[test]
fn rabbyung_test2() {
    assert_eq!(
        "第十七饶迥铁虎年",
        RabByungYear::from_year(2010).unwrap().get_name()
    );
}

#[test]
fn rabbyung_test3() {
    assert_eq!(5, RabByungYear::from_year(2043).unwrap().get_leap_month());
    assert_eq!(0, RabByungYear::from_year(2044).unwrap().get_leap_month());
}

#[test]
fn rabbyung_test4() {
    assert_eq!(
        "第十六饶迥铁牛年",
        RabByungYear::from_year(1961).unwrap().get_name()
    );
}

#[test]
fn rabbyung_test5() {
    assert_eq!(
        "第十六饶迥铁虎年十二月",
        RabByungMonth::from_ym(1950, 12).unwrap().to_string()
    );
}

#[test]
fn elements_by_name_and_place() {
    let iron = RabByungElement::from_name("铁");
    assert_eq!(iron.get_index(), 3);
    assert_eq!(iron.get_name(), "铁");
    assert_eq!(RabByungElement::from_name("金").get_index(), 3);
    assert_eq!(RabByungElement::from_name("木").get_index(), 0);
    assert_eq!(RabByungElement::from_index(-1).get_name(), "水");
    assert_eq!(RabByungElement::from_index(7).get_name(), "土");
    assert_eq!(iron.get_size(), 5);
    assert_eq!(iron.get_reinforce().get_name(), "水");
    assert_eq!(iron.get_restrain().get_name(), "木");
    assert_eq!(iron.get_reinforced().get_name(), "土");
    assert_eq!(iron.get_restrained().get_name(), "火");
    assert_eq!(iron.get_direction().get_name(), "西");
    assert_eq!(RabByungElement::from_index(0).get_direction().get_name(), "东");
    assert_eq!(iron.next(-8).get_index(), 0);
}

#[test]
fn years_and_their_errors() {
    assert_eq!(
        RabByungYear::new(-1, SixtyCycle::from_index(0)).unwrap_err(),
        "illegal rab-byung index: -1"
    );
    assert_eq!(
        RabByungYear::new(151, SixtyCycle::from_index(0)).unwrap_err(),
        "illegal rab-byung index: 151"
    );
    assert!(RabByungYear::from_sixty_cycle(150, SixtyCycle::from_index(59)).is_ok());
    // Every element goes with every animal in some year of a cycle.
    for e in 0..5 {
        for z in 0..12 {
            let y = RabByungYear::from_element_zodiac(
                3,
                RabByungElement::from_index(e),
                Zodiac::from_index(z),
            )
            .unwrap();
            assert_eq!(y.get_element().get_index(), e as usize);
            assert_eq!(y.get_zodiac().get_index(), z as usize);
            assert_eq!(y.get_rab_byung_index(), 3);
        }
    }
    assert_eq!(
        RabByungYear::from_element_zodiac(
            200,
            RabByungElement::from_name("铁"),
            Zodiac::from_name("虎")
        )
        .unwrap_err(),
        "illegal rab-byung index: 200"
    );
    assert!(RabByungYear::from_year(964).is_err());
    assert!(RabByungYear::from_year(10084).is_err());
    let last = RabByungYear::from_year(10083).unwrap();
    assert_eq!(last.get_year(), 10083);
    assert_eq!(last.get_rab_byung_index(), 150);
    assert_eq!(last.get_name(), "第一百五十一饶迥水猪年");
    assert!(last.next(1).is_err());
    let y = RabByungYear::from_year(2025).unwrap();
    assert_eq!(y.get_year(), 2025);
    assert_eq!(y.get_rab_byung_index(), 16);
    assert_eq!(y.get_zodiac().get_name(), "蛇");
    assert_eq!(y.get_element().get_name(), "木");
    assert_eq!(y.next(-15).unwrap().get_year(), 2010);
    assert_eq!(y.get_solar_year().get_year(), 2025);
    assert_eq!(RabByungYear::from_year(1630).unwrap().get_name(), "第十一饶迥铁马年");
    assert_eq!(RabByungYear::from_year(7024).unwrap().get_name(), "第一百零一饶迥木鼠年");
    assert_eq!(RabByungYear::from_year(7624).unwrap().get_name(), "第一百一十一饶迥木鼠年");
    assert_eq!(RabByungYear::from_year(2224).unwrap().get_name(), "第二十一饶迥木鼠年");
    assert_eq!(RabByungYear::from_year(1564).unwrap().get_name(), "第十饶迥木鼠年");
}

#[test]
fn leap_months_follow_each_other() {
    // The first leap month is the 4th of year 1; 33 and 32 months apart in turn.
    let mut with_leap = Vec::new();
    for year in 1950..1960 {
        let y = RabByungYear::from_year(year).unwrap();
        if y.get_leap_month() > 0 {
            with_leap.push((year, y.get_leap_month()));
        }
        assert_eq!(y.get_month_count(), if y.get_leap_month() > 0 { 13 } else { 12 });
    }
    assert_eq!(with_leap, vec![(1951, 4), (1954, 1), (1956, 9), (1959, 6)]);
}

#[test]
fn months_and_their_errors() {
    assert_eq!(
        RabByungMonth::from_ym(2000, 0).unwrap_err(),
        "illegal rab-byung month: 0"
    );
    assert_eq!(
        RabByungMonth::from_ym(2000, 13).unwrap_err(),
        "illegal rab-byung month: 13"
    );
    assert_eq!(
        RabByungMonth::from_ym(2000, -13).unwrap_err(),
        "illegal rab-byung month: -13"
    );
    assert_eq!(
        RabByungMonth::from_ym(1949, 1).unwrap_err(),
        "rab-byung year 1949 must between 1950 and 2050"
    );
    assert_eq!(
        RabByungMonth::from_ym(2051, 1).unwrap_err(),
        "rab-byung year 2051 must between 1950 and 2050"
    );
    assert_eq!(
        RabByungMonth::from_ym(1950, 11).unwrap_err(),
        "month 11 must be 12 in rab-byung year 1950"
    );
    assert_eq!(
        RabByungMonth::from_ym(1951, -5).unwrap_err(),
        "illegal leap month 5 in rab-byung year 1951"
    );
    assert!(RabByungMonth::from_ym(964, 1).is_err());
    let leap = RabByungMonth::from_ym(1951, -4).unwrap();
    assert!(leap.is_leap());
    assert_eq!(leap.get_month(), 4);
    assert_eq!(leap.get_month_with_leap(), -4);
    assert_eq!(leap.get_index_in_year(), 4);
    assert_eq!(leap.get_year(), 1951);
    assert_eq!(leap.get_name(), "闰四月");
    assert_eq!(leap.alias(), "闰萨嘎月");
    assert_eq!(leap.to_string(), "第十六饶迥铁兔年闰四月");
    assert_eq!(leap.get_rab_byung_year().get_year(), 1951);
    let fifth = RabByungMonth::from_ym(1951, 5).unwrap();
    assert_eq!(fifth.get_index_in_year(), 5);
    assert_eq!(fifth.alias(), "作净月");
    assert_eq!(RabByungMonth::from_ym(1951, 4).unwrap().get_index_in_year(), 3);
    let by_name = RabByungMonth::from_element_zodiac(
        15,
        RabByungElement::from_name("铁"),
        Zodiac::from_name("兔"),
        -4,
    )
    .unwrap();
    assert_eq!(by_name, leap);
}

#[test]
fn months_follow_each_other() {
    let first = RabByungMonth::from_ym(1950, 12).unwrap();
    assert_eq!(first.next(0).unwrap(), first);
    assert_eq!(first.next(1).unwrap().to_string(), "第十六饶迥铁兔年正月");
    assert_eq!(first.next(5).unwrap().to_string(), "第十六饶迥铁兔年闰四月");
    assert_eq!(first.next(6).unwrap().to_string(), "第十六饶迥铁兔年五月");
    assert_eq!(first.next(13).unwrap().to_string(), "第十六饶迥铁兔年十二月");
    assert_eq!(first.next(14).unwrap().to_string(), "第十六饶迥水龙年正月");
    assert_eq!(
        first.next(-1).unwrap_err(),
        "month 11 must be 12 in rab-byung year 1950"
    );
    assert_eq!(
        first.next(-14).unwrap_err(),
        "rab-byung year 1949 must between 1950 and 2050"
    );
    let later = RabByungMonth::from_ym(1952, 1).unwrap();
    assert_eq!(later.next(-14).unwrap(), first);
    assert_eq!(later.next(-9).unwrap().to_string(), "第十六饶迥铁兔年闰四月");
    assert_eq!(later.next(-10).unwrap().to_string(), "第十六饶迥铁兔年四月");
    let last = RabByungMonth::from_ym(2050, 12).unwrap();
    assert_eq!(
        last.next(1).unwrap_err(),
        "rab-byung year 2051 must between 1950 and 2050"
    );
    let year = RabByungYear::from_year(1951).unwrap();
    let months = year.get_months();
    assert_eq!(months.len(), 13);
    for (k, m) in months.iter().enumerate() {
        assert_eq!(m.get_index_in_year(), k);
        assert_eq!(*m, first.next(k as isize + 1).unwrap());
    }
    assert_eq!(year.get_first_month(), months[0]);
    assert_eq!(RabByungYear::from_year(1952).unwrap().get_months().len(), 12);
}

fn sample_table() -> Vec<RabByungMonthData> {
    vec![
        RabByungMonthData { year: 1950, month: 11, days: vec![16, -28] },
        RabByungMonthData { year: 1951, month: 0, days: vec![-3] },
        RabByungMonthData { year: 1951, month: 1, days: vec![5] },
        RabByungMonthData { year: 1951, month: 0, days: vec![9] },
    ]
}

#[test]
fn special_days_of_a_month() {
    let table = sample_table();
    assert_eq!(get_rab_byung_month_days(&table, 1950, 11), vec![16, -28]);
    assert_eq!(get_rab_byung_month_days(&table, 1951, 0), vec![-3]);
    assert_eq!(get_rab_byung_month_days(&table, 1951, 2), Vec::<isize>::new());
    let first = RabByungMonth::from_ym(1950, 12).unwrap();
    assert_eq!(first.get_special_days(&table), vec![16, -28]);
    assert_eq!(first.get_leap_days(&table), vec![16]);
    assert_eq!(first.get_miss_days(&table), vec![28]);
    assert_eq!(first.get_day_count(&table), 30);
    let second = first.next(1).unwrap();
    assert_eq!(second.get_day_count(&table), 29);
    assert_eq!(second.next(1).unwrap().get_day_count(&table), 31);
    assert_eq!(second.next(2).unwrap().get_day_count(&table), 30);
    let days = first.get_days(&table);
    let numbers: Vec<isize> = days.iter().map(|d| d.get_day_with_leap()).collect();
    let mut expected: Vec<isize> = Vec::new();
    for i in 1..=30 {
        if i == 28 {
            continue;
        }
        expected.push(i);
        if i == 16 {
            expected.push(-16);
        }
    }
    assert_eq!(numbers, expected);
    assert_eq!(first.get_first_day(&table).unwrap().get_day(), 1);
}

#[test]
fn days_and_their_errors() {
    let table = sample_table();
    let first = RabByungMonth::from_ym(1950, 12).unwrap();
    assert_eq!(
        RabByungDay::new(first, 0, &table).unwrap_err(),
        "illegal day 0 in 第十六饶迥铁虎年十二月"
    );
    assert_eq!(
        RabByungDay::new(first, 31, &table).unwrap_err(),
        "illegal day 31 in 第十六饶迥铁虎年十二月"
    );
    assert_eq!(
        RabByungDay::new(first, -31, &table).unwrap_err(),
        "illegal day -31 in 第十六饶迥铁虎年十二月"
    );
    assert_eq!(
        RabByungDay::new(first, -15, &table).unwrap_err(),
        "illegal leap day 15 in 第十六饶迥铁虎年十二月"
    );
    assert_eq!(
        RabByungDay::new(first, 28, &table).unwrap_err(),
        "illegal day 28 in 第十六饶迥铁虎年十二月"
    );
    let leap = RabByungDay::new(first, -16, &table).unwrap();
    assert!(leap.is_leap());
    assert_eq!(leap.get_day(), 16);
    assert_eq!(leap.get_day_with_leap(), -16);
    assert_eq!(leap.get_month(), 12);
    assert_eq!(leap.get_year(), 1950);
    assert_eq!(leap.get_rab_byung_month(), first);
    assert_eq!(leap.get_name(), "闰十六");
    assert_eq!(leap.to_string(), "第十六饶迥铁虎年十二月闰十六");
    assert_eq!(RabByungDay::from_ymd(1950, 12, -16, &table).unwrap(), leap);
    assert!(RabByungDay::from_ymd(1950, 11, 1, &table).is_err());
    assert_eq!(
        RabByungDay::from_element_zodiac(
            15,
            RabByungElement::from_name("铁"),
            Zodiac::from_name("虎"),
            12,
            -16,
            &table
        )
        .unwrap(),
        leap
    );
}

#[test]
fn days_of_both_calendars() {
    let table = sample_table();
    // The calendar begins on 8 January 1951.
    let first = SolarDay::from_ymd(1951, 1, 8).get_rab_byung_day(&table).unwrap();
    assert_eq!(first.to_string(), "第十六饶迥铁虎年十二月初一");
    assert_eq!(first.get_solar_day(&table), SolarDay::from_ymd(1951, 1, 8));
    // Day 16 comes twice.
    let d16 = SolarDay::from_ymd(1951, 1, 23).get_rab_byung_day(&table).unwrap();
    assert_eq!(d16.get_day_with_leap(), 16);
    let d16b = SolarDay::from_ymd(1951, 1, 24).get_rab_byung_day(&table).unwrap();
    assert_eq!(d16b.get_day_with_leap(), -16);
    assert_eq!(d16b.get_solar_day(&table), SolarDay::from_ymd(1951, 1, 24));
    let d17 = SolarDay::from_ymd(1951, 1, 25).get_rab_byung_day(&table).unwrap();
    assert_eq!(d17.get_day_with_leap(), 17);
    // Day 28 is left out: the 27th is followed by the 29th.
    let d27 = SolarDay::from_ymd(1951, 2, 4).get_rab_byung_day(&table).unwrap();
    assert_eq!(d27.get_day_with_leap(), 27);
    let d29 = SolarDay::from_ymd(1951, 2, 5).get_rab_byung_day(&table).unwrap();
    assert_eq!(d29.get_day_with_leap(), 29);
    assert_eq!(d29.subtract(d27, &table), 1);
    // The month has 30 days; the next begins on 7 February.
    let next_month = SolarDay::from_ymd(1951, 2, 7).get_rab_byung_day(&table).unwrap();
    assert_eq!(next_month.to_string(), "第十六饶迥铁兔年正月初一");
    assert_eq!(next_month.subtract(first, &table), 30);
    assert_eq!(first.next(30, &table).unwrap(), next_month);
    assert_eq!(next_month.next(-30, &table).unwrap(), first);
    assert_eq!(first.next(0, &table).unwrap(), first);
    // Every day of the first year goes to a civil day and comes back.
    let mut day = SolarDay::from_ymd(1951, 1, 8);
    for _ in 0..400 {
        let tibetan = day.get_rab_byung_day(&table).unwrap();
        assert_eq!(tibetan.get_solar_day(&table), day);
        day = day.next(1);
    }
    // Past the end of 2050 the calendar has no day.
    assert!(SolarDay::from_ymd(2060, 1, 1).get_rab_byung_day(&table).is_err());
    // Before the calendar begins the counting comes to no day.
    assert!(SolarDay::from_ymd(1951, 1, 7).get_rab_byung_day(&table).is_err());
}
