use sxtwl_rs::eightchar::{
    seconds_between, split_double_hours, split_minutes, split_seconds, AbstractChildLimitProvider,
    ChildLimitProvider, ChildLimitService, China95ChildLimitProvider, DefaultChildLimitProvider,
    DefaultEightCharProvider, EightChar, EightCharProvider, EightCharService,
    LunarHour, LunarSect1ChildLimitProvider, LunarSect2ChildLimitProvider,
    LunarSect2EightCharProvider,
};
use sxtwl_rs::sixtycycle::SixtyCycle;
use sxtwl_rs::solar::SolarTime;

fn time(y: isize, mo: usize, d: usize, h: usize, mi: usize, s: usize) -> SolarTime {
    SolarTime::from_ymd_hms(y, mo, d, h, mi, s)
}

#[test]
fn spans_are_added_with_carry() {
    let provider = AbstractChildLimitProvider::new();
    let birth = time(2000, 1, 31, 23, 59, 59);
    let info = provider.next(birth, 0, 1, 0, 0, 0, 1);
    assert_eq!(info.start_time, birth);
    assert_eq!(info.end_time, time(2000, 3, 3, 0, 0, 0));
    assert_eq!(
        (info.year_count, info.month_count, info.day_count, info.hour_count, info.minute_count),
        (0, 1, 0, 0, 0)
    );
    let info = provider.next(birth, 0, 0, 0, 0, 0, 0);
    assert_eq!(info.end_time, birth);
    let info = provider.next(birth, 1, 11, 1, 25, 61, 61);
    // 2001-12-31 23:59:59 and a day, 25 hours, 61 minutes and 61 seconds.
    assert_eq!(info.end_time, time(2002, 1, 3, 2, 2, 0));
    let info = provider.next(time(1999, 12, 1, 0, 0, 0), 0, 0, 366, 0, 0, 0);
    assert_eq!(info.end_time, time(2000, 12, 1, 0, 0, 0));
    let info = provider.next(time(2000, 2, 29, 12, 0, 0), 1, 0, 0, 0, 0, 0);
    // The 29th of a February of 28 days is the 1st of March.
    assert_eq!(info.end_time, time(2001, 3, 1, 12, 0, 0));
}

#[test]
fn three_days_to_the_year_by_seconds() {
    let provider = DefaultChildLimitProvider::new();
    let birth = time(2000, 1, 1, 0, 0, 0);
    let info = provider.get_info(birth, time(2000, 1, 11, 0, 0, 0));
    assert_eq!((info.year_count, info.month_count, info.day_count), (3, 4, 0));
    assert_eq!(info.end_time, time(2003, 5, 1, 0, 0, 0));
    let info = provider.get_info(birth, time(2000, 1, 2, 1, 0, 30));
    assert_eq!(
        (info.year_count, info.month_count, info.day_count, info.hour_count, info.minute_count),
        (0, 4, 5, 1, 0)
    );
    assert_eq!(info.end_time, time(2000, 5, 6, 1, 0, 0));
    // A term before the birth counts as one after it.
    let back = provider.get_info(time(2000, 1, 2, 1, 0, 30), birth);
    assert_eq!(
        (back.year_count, back.month_count, back.day_count, back.hour_count, back.minute_count),
        (0, 4, 5, 1, 0)
    );
    assert_eq!(back.end_time, time(2000, 5, 7, 2, 0, 30));
    let info = provider.get_info(birth, time(2000, 1, 1, 0, 0, 29));
    assert_eq!((info.hour_count, info.minute_count), (0, 58));
    assert_eq!(info.end_time, time(2000, 1, 1, 0, 58, 0));
    assert_eq!(split_seconds(259_200 + 21_600 + 720 + 30 + 1), (1, 1, 1, 1, 2));
    assert_eq!(split_seconds(100_000_000), (385, 9, 18, 21, 20));
    assert_eq!(seconds_between(birth, time(2000, 1, 2, 1, 0, 30)), 90_030);
    assert_eq!(seconds_between(time(2000, 1, 2, 1, 0, 30), birth), 90_030);
}

#[test]
fn three_days_to_the_year_by_minutes() {
    let birth = time(2000, 1, 1, 0, 0, 0);
    let term = time(2000, 1, 2, 1, 7, 30);
    let info = China95ChildLimitProvider::new().get_info(birth, term);
    assert_eq!(
        (info.year_count, info.month_count, info.day_count, info.hour_count, info.minute_count),
        (0, 4, 5, 0, 0)
    );
    assert_eq!(info.end_time, time(2000, 5, 6, 0, 0, 0));
    let info = LunarSect2ChildLimitProvider::new().get_info(birth, term);
    assert_eq!(
        (info.year_count, info.month_count, info.day_count, info.hour_count, info.minute_count),
        (0, 4, 5, 14, 0)
    );
    assert_eq!(info.end_time, time(2000, 5, 6, 14, 0, 0));
    assert_eq!(split_minutes(4320 + 360 + 12 + 1), (1, 1, 1, 2));
    assert_eq!(split_minutes(0), (0, 0, 0, 0));
}

#[test]
fn days_and_double_hours() {
    let birth = time(2000, 1, 1, 5, 0, 0);
    let term = time(2000, 1, 3, 14, 0, 0);
    let provider = LunarSect1ChildLimitProvider::new();
    let info = provider.get_info(birth, term);
    assert_eq!((info.year_count, info.month_count, info.day_count), (0, 9, 10));
    assert_eq!(info.end_time, time(2000, 10, 11, 5, 0, 0));
    // The same span where the birth is the later of the two.
    let info = provider.get_info(term, birth);
    assert_eq!((info.year_count, info.month_count, info.day_count), (0, 9, 10));
    assert_eq!(info.end_time, time(2000, 10, 13, 14, 0, 0));
    // An earlier double hour on a later day borrows a day.
    assert_eq!(
        split_double_hours(time(2000, 1, 1, 22, 0, 0), time(2000, 1, 5, 3, 0, 0)),
        (1, 1, 0)
    );
    // The last hour of the day counts to the last double hour.
    assert_eq!(
        split_double_hours(time(2000, 1, 1, 23, 0, 0), time(2000, 1, 1, 23, 30, 0)),
        (0, 0, 0)
    );
    assert_eq!(
        split_double_hours(time(2000, 1, 1, 0, 0, 0), time(2000, 1, 1, 23, 0, 0)),
        (0, 3, 20)
    );
}

struct FixedPillars {}

impl EightCharProvider for FixedPillars {
    fn get_eight_char(&self, hour: LunarHour) -> EightChar {
        EightChar {
            year: SixtyCycle::from_index(hour.year - 4),
            month: SixtyCycle::from_index(hour.month),
            day: SixtyCycle::from_index(hour.day as isize),
            hour: SixtyCycle::from_index(hour.hour as isize),
        }
    }
}

#[test]
fn services_ask_their_rule() {
    let pillars = EightCharService::new(FixedPillars {});
    let hour = LunarHour { year: 2023, month: 1, day: 2, hour: 3, minute: 0, second: 0 };
    let found = pillars.get_eight_char(hour);
    assert_eq!(found.year.get_name(), "癸卯");
    assert_eq!(found.hour.get_name(), "丁卯");
    let limits = ChildLimitService::new(China95ChildLimitProvider::new());
    let birth = time(2000, 1, 1, 0, 0, 0);
    let info = limits.get_info(birth, time(2000, 1, 2, 1, 7, 30));
    assert_eq!(info.end_time, time(2000, 5, 6, 0, 0, 0));
    let _ = DefaultEightCharProvider::new();
    let _ = LunarSect2EightCharProvider::new();
}

#[test]
fn times_of_day() {
    let a = time(2000, 1, 1, 23, 59, 59);
    let b = time(2000, 1, 2, 0, 0, 0);
    assert_eq!(b.subtract(a), 1);
    assert_eq!(a.subtract(b), -1);
    assert!(b.is_after(a));
    assert!(a.is_before(b));
    assert!(!a.is_after(a));
    assert_eq!(time(2001, 1, 1, 0, 0, 0).subtract(time(2000, 1, 1, 0, 0, 0)), 366 * 86400);
    assert_eq!((a.get_year(), a.get_month(), a.get_day()), (2000, 1, 1));
    assert_eq!((a.get_hour(), a.get_minute(), a.get_second()), (23, 59, 59));
    assert_eq!(a.get_solar_day(), b.get_solar_day().next(-1));
}
