//! The four pillars of a birth, and the age at which the first span of luck
//! begins: the time between the birth and the solar term next to it, turned
//! into years, months and days by one of four rules.

use vstd::prelude::*;
use crate::sixtycycle::SixtyCycle;
use crate::solar::{day_number, SolarMonth, SolarTime};

verus! {

/// An hour of a day of the lunar calendar, as its parts.
#[derive(Clone, Copy, Debug, PartialEq, Eq, Structural)]
pub struct LunarHour {
    pub year: isize,
    pub month: isize,
    pub day: usize,
    pub hour: usize,
    pub minute: usize,
    pub second: usize,
}

/// The four pillars: the pairs of stem and branch of the year, the month,
/// the day and the hour.
#[derive(Clone, Copy, Debug, PartialEq, Eq, Structural)]
pub struct EightChar {
    pub year: SixtyCycle,
    pub month: SixtyCycle,
    pub day: SixtyCycle,
    pub hour: SixtyCycle,
}

/// The span from a birth to the beginning of the first span of luck.
#[derive(Clone, Copy, Debug, PartialEq, Eq, Structural)]
pub struct ChildLimitInfo {
    pub start_time: SolarTime,
    pub end_time: SolarTime,
    pub year_count: usize,
    pub month_count: usize,
    pub day_count: usize,
    pub hour_count: usize,
    pub minute_count: usize,
}

/// A rule for the span from a birth to the first span of luck. `term_time`
/// is the time of the solar term next to the birth.
pub trait ChildLimitProvider {
    fn get_info(&self, birth_time: SolarTime, term_time: SolarTime) -> ChildLimitInfo
        requires
            birth_in_range(birth_time),
            term_time.wf(),
            term_near(birth_time, term_time),
    ;
}

/// A rule for the four pillars of an hour.
pub trait EightCharProvider {
    fn get_eight_char(&self, hour: LunarHour) -> EightChar;
}

/// The rule that counts the last hour of a day to the next day.
#[derive(Clone, Copy, Debug)]
pub struct DefaultEightCharProvider {}

/// The rule that counts the last hour of a day to the day itself.
#[derive(Clone, Copy, Debug)]
pub struct LunarSect2EightCharProvider {}

/// What the rules for the span have in common: adding a span to a time.
#[derive(Clone, Copy, Debug)]
pub struct AbstractChildLimitProvider {}

/// The rule of three days to the year, by seconds.
#[derive(Clone, Copy, Debug)]
pub struct DefaultChildLimitProvider {
    parent: AbstractChildLimitProvider,
}

/// The rule of three days to the year, by minutes, down to days.
#[derive(Clone, Copy, Debug)]
pub struct China95ChildLimitProvider {
    parent: AbstractChildLimitProvider,
}

/// The rule by days and double hours.
#[derive(Clone, Copy, Debug)]
pub struct LunarSect1ChildLimitProvider {
    parent: AbstractChildLimitProvider,
}

/// The rule of three days to the year, by minutes, down to hours.
#[derive(Clone, Copy, Debug)]
pub struct LunarSect2ChildLimitProvider {
    parent: AbstractChildLimitProvider,
}

/// The four pillars by a rule.
pub struct EightCharService<P: EightCharProvider> {
    provider: P,
}

/// The span to the first span of luck by a rule.
pub struct ChildLimitService<P: ChildLimitProvider> {
    provider: P,
}

/// Whether a birth lies in the years for which the span can be added: after
/// the days left out in 1582, and far enough from the end of the calendar.
pub open spec fn birth_in_range(birth_time: SolarTime) -> bool {
    birth_time.wf() && 1583 <= birth_time.day().year() <= 8000
}

/// Whether the term lies within a hundred million seconds of the birth.
pub open spec fn term_near(birth_time: SolarTime, term_time: SolarTime) -> bool {
    -100_000_000 <= term_time.seconds() - birth_time.seconds() <= 100_000_000
}

/// The months from the beginning of year 0 to the month in which a span
/// added to a birth begins to count days: the month of the birth, `add_year`
/// years and `add_month` months on.
pub open spec fn limit_month(birth_time: SolarTime, add_year: int, add_month: int) -> int {
    (birth_time.day().year() + add_year) * 12 + birth_time.day().month() - 1 + add_month
}

/// The seconds of the day that a span added to a birth ends in, counted from
/// the beginning of the birth's day.
pub open spec fn limit_seconds(
    birth_time: SolarTime,
    add_hour: int,
    add_minute: int,
    add_second: int,
) -> int {
    (birth_time.hour() + add_hour) * 3600 + (birth_time.minute() + add_minute) * 60
        + birth_time.second() + add_second
}

/// The number, in the count of days, of the day that a span added to a birth
/// ends on: the day of the birth's number in the month of `limit_month`,
/// `add_day` days on, and on by the whole days that the hours, minutes and
/// seconds make.
pub open spec fn limit_day_number(
    birth_time: SolarTime,
    add_year: int,
    add_month: int,
    add_day: int,
    add_hour: int,
    add_minute: int,
    add_second: int,
) -> int {
    let months = limit_month(birth_time, add_year, add_month);
    day_number(months / 12, months % 12 + 1, 1) + birth_time.day().day() - 1 + add_day
        + limit_seconds(birth_time, add_hour, add_minute, add_second) / 86400
}

/// Whether `info` is the span of the given length from `birth_time`: it
/// begins at the birth, holds the length, and ends at the time that the
/// length leads to.
pub open spec fn is_limit(
    info: ChildLimitInfo,
    birth_time: SolarTime,
    add_year: int,
    add_month: int,
    add_day: int,
    add_hour: int,
    add_minute: int,
    add_second: int,
) -> bool {
    &&& info.start_time == birth_time
    &&& info.year_count == add_year
    &&& info.month_count == add_month
    &&& info.day_count == add_day
    &&& info.hour_count == add_hour
    &&& info.minute_count == add_minute
    &&& info.end_time.wf()
    &&& info.end_time.day().number() == limit_day_number(
        birth_time,
        add_year,
        add_month,
        add_day,
        add_hour,
        add_minute,
        add_second,
    )
    &&& info.end_time.second_of_day() == limit_seconds(
        birth_time,
        add_hour,
        add_minute,
        add_second,
    ) % 86400
}

/// The seconds between two times, whichever is the earlier.
pub open spec fn span_between(birth_time: SolarTime, term_time: SolarTime) -> int {
    if term_time.seconds() >= birth_time.seconds() {
        term_time.seconds() - birth_time.seconds()
    } else {
        birth_time.seconds() - term_time.seconds()
    }
}

/// The years, months, days, hours and minutes that a span of seconds makes
/// where three days make a year, a day four months, an hour five days, a
/// minute two hours and a second two minutes.
pub open spec fn span_by_seconds(seconds: int) -> (int, int, int, int, int) {
    (
        seconds / 259200,
        seconds % 259200 / 21600,
        seconds % 21600 / 720,
        seconds % 720 / 30,
        seconds % 30 * 2,
    )
}

/// The years, months, days and hours that a span of whole minutes makes
/// where 4320 minutes make a year, 360 a month, 12 a day and each minute
/// left two hours.
pub open spec fn span_by_minutes(minutes: int) -> (int, int, int, int) {
    (minutes / 4320, minutes % 4320 / 360, minutes % 360 / 12, minutes % 12 * 2)
}

/// The years, months and days that the days and double hours between two
/// times make, where a day makes four months and a double hour ten days.
pub open spec fn span_by_double_hours(start: SolarTime, end: SolarTime) -> (int, int, int) {
    let hours = double_hour(end.hour()) - double_hour(start.hour());
    let days = end.day().number() - start.day().number();
    let (hour_diff, day_diff) = if hours < 0 {
        (hours + 12, days - 1)
    } else {
        (hours, days)
    };
    let months = day_diff * 4 + hour_diff * 10 / 30;
    (months / 12, months % 12, hour_diff * 10 % 30)
}

/// Splits a span of seconds into years, months, days, hours and minutes.
pub fn split_seconds(total: usize) -> (span: (usize, usize, usize, usize, usize))
    requires
        total <= 100_000_000,
    ensures
        (span.0 as int, span.1 as int, span.2 as int, span.3 as int, span.4 as int)
            == span_by_seconds(total as int),
        span.0 <= 385,
        span.1 < 12,
        span.2 < 30,
        span.3 < 24,
        span.4 < 60,
{
    let mut seconds: usize = total;
    let year: usize = seconds / 259200;
    seconds = seconds % 259200;
    let month: usize = seconds / 21600;
    seconds = seconds % 21600;
    let day: usize = seconds / 720;
    seconds = seconds % 720;
    let hour: usize = seconds / 30;
    seconds = seconds % 30;
    let minute: usize = seconds * 2;
    proof {
        vstd::arithmetic::div_mod::lemma_mod_mod(total as int, 21600, 12);
        vstd::arithmetic::div_mod::lemma_mod_mod(total as int, 720, 30);
        vstd::arithmetic::div_mod::lemma_mod_mod(total as int, 30, 24);
    }
    (year, month, day, hour, minute)
}

/// Splits a span of whole minutes into years, months, days and hours.
pub fn split_minutes(total: usize) -> (span: (usize, usize, usize, usize))
    requires
        total <= 2_000_000,
    ensures
        (span.0 as int, span.1 as int, span.2 as int, span.3 as int) == span_by_minutes(
            total as int,
        ),
        span.0 <= 463,
        span.1 < 12,
        span.2 < 30,
        span.3 < 24,
{
    let mut minutes: usize = total;
    let year: usize = minutes / 4320;
    minutes = minutes % 4320;
    let month: usize = minutes / 360;
    minutes = minutes % 360;
    let day: usize = minutes / 12;
    minutes = minutes % 12;
    let hour: usize = minutes * 2;
    proof {
        vstd::arithmetic::div_mod::lemma_mod_mod(total as int, 360, 12);
        vstd::arithmetic::div_mod::lemma_mod_mod(total as int, 12, 30);
    }
    (year, month, day, hour)
}

/// The place among the twelve double hours of an hour of the day, where the
/// last hour of the day counts to the last double hour.
pub open spec fn double_hour(hour: int) -> int {
    if hour == 23 {
        11
    } else {
        (hour + 1) / 2
    }
}

impl DefaultEightCharProvider {
    /// The rule.
    pub fn new() -> Self {
        Self {  }
    }
}

impl LunarSect2EightCharProvider {
    /// The rule.
    pub fn new() -> Self {
        Self {  }
    }
}

impl AbstractChildLimitProvider {
    /// The common part of the rules.
    pub fn new() -> Self {
        Self {  }
    }

    /// The span of the given length from a birth: the seconds, minutes and
    /// hours are added and carried into the days, the years and months are
    /// added to the birth's month, and the days are counted on from there
    /// through the months.
    pub fn next(
        &self,
        birth_time: SolarTime,
        add_year: usize,
        add_month: usize,
        add_day: usize,
        add_hour: usize,
        add_minute: usize,
        add_second: usize,
    ) -> (info: ChildLimitInfo)
        requires
            birth_in_range(birth_time),
            add_year <= 500,
            add_month <= 1000,
            add_day <= 100_000,
            add_hour <= 1_000_000,
            add_minute <= 1_000_000,
            add_second <= 1_000_000,
        ensures
            is_limit(
                info,
                birth_time,
                add_year as int,
                add_month as int,
                add_day as int,
                add_hour as int,
                add_minute as int,
                add_second as int,
            ),
    {
        let mut d: usize = birth_time.get_day() + add_day;
        let mut h: usize = birth_time.get_hour() + add_hour;
        let mut mi: usize = birth_time.get_minute() + add_minute;
        let mut s: usize = birth_time.get_second() + add_second;
        let ghost total = limit_seconds(
            birth_time,
            add_hour as int,
            add_minute as int,
            add_second as int,
        );
        mi = mi + s / 60;
        s = s % 60;
        h = h + mi / 60;
        mi = mi % 60;
        d = d + h / 24;
        h = h % 24;
        proof {
            assert(total == (d - birth_time.day().day() - add_day) * 86400 + h * 3600 + mi * 60
                + s);
            assert(0 <= h * 3600 + mi * 60 + s < 86400);
            vstd::arithmetic::div_mod::lemma_fundamental_div_mod_converse(
                total,
                86400,
                d - birth_time.day().day() - add_day,
                h * 3600 + mi * 60 + s,
            );
        }
        let mut sm: SolarMonth = SolarMonth::from_ym(
            birth_time.get_year() + add_year as isize,
            birth_time.get_month(),
        ).next(add_month as isize);
        let ghost target = limit_day_number(
            birth_time,
            add_year as int,
            add_month as int,
            add_day as int,
            add_hour as int,
            add_minute as int,
            add_second as int,
        );
        proof {
            let months = limit_month(birth_time, add_year as int, add_month as int);
            assert(sm.ordinal() == months);
            assert(months / 12 == sm.year() && months % 12 + 1 == sm.month());
        }
        let mut dc: usize = sm.get_day_count();
        while d > dc
            invariant
                sm.wf(),
                1583 <= sm.year(),
                12 * sm.year() + sm.month() + d / 28 <= 108_200,
                dc == crate::solar::days_in_month(sm.year(), sm.month()),
                1 <= d <= 200_000,
                day_number(sm.year(), sm.month(), 1) + d - 1 == target,
            decreases d,
        {
            proof {
                crate::solar::lemma_month_length(sm.year(), sm.month());
            }
            d = d - dc;
            sm = sm.next(1);
            dc = sm.get_day_count();
        }
        proof {
            crate::solar::lemma_day_in_month(sm.year(), sm.month(), d - 1);
        }
        ChildLimitInfo {
            start_time: birth_time,
            end_time: SolarTime::from_ymd_hms(sm.get_year(), sm.get_month(), d, h, mi, s),
            year_count: add_year,
            month_count: add_month,
            day_count: add_day,
            hour_count: add_hour,
            minute_count: add_minute,
        }
    }
}

/// The seconds between two times, whichever is the earlier.
pub fn seconds_between(birth_time: SolarTime, term_time: SolarTime) -> (seconds: usize)
    requires
        birth_time.wf(),
        term_time.wf(),
        term_near(birth_time, term_time),
    ensures
        seconds == span_between(birth_time, term_time),
        seconds <= 100_000_000,
{
    let diff: i64 = term_time.subtract(birth_time);
    if diff < 0 {
        (-diff) as usize
    } else {
        diff as usize
    }
}

impl DefaultChildLimitProvider {
    /// The rule.
    pub fn new() -> Self {
        Self { parent: AbstractChildLimitProvider::new() }
    }
}

impl ChildLimitProvider for DefaultChildLimitProvider {
    /// Three days make a year, a day four months, an hour five days, a minute
    /// two hours and a second two minutes.
    fn get_info(&self, birth_time: SolarTime, term_time: SolarTime) -> (info: ChildLimitInfo)
        ensures
            ({
                let span = span_by_seconds(span_between(birth_time, term_time));
                is_limit(info, birth_time, span.0, span.1, span.2, span.3, span.4, 0)
            }),
    {
        let total: usize = seconds_between(birth_time, term_time);
        let (year, month, day, hour, minute) = split_seconds(total);
        self.parent.next(birth_time, year, month, day, hour, minute, 0)
    }
}

impl China95ChildLimitProvider {
    /// The rule.
    pub fn new() -> Self {
        Self { parent: AbstractChildLimitProvider::new() }
    }
}

impl ChildLimitProvider for China95ChildLimitProvider {
    /// By whole minutes, down to days: the hours that the minutes left make
    /// are not counted.
    fn get_info(&self, birth_time: SolarTime, term_time: SolarTime) -> (info: ChildLimitInfo)
        ensures
            ({
                let span = span_by_minutes(span_between(birth_time, term_time) / 60);
                is_limit(info, birth_time, span.0, span.1, span.2, 0, 0, 0)
            }),
    {
        let total: usize = seconds_between(birth_time, term_time) / 60;
        let (year, month, day, _) = split_minutes(total);
        self.parent.next(birth_time, year, month, day, 0, 0, 0)
    }
}

impl LunarSect1ChildLimitProvider {
    /// The rule.
    pub fn new() -> Self {
        Self { parent: AbstractChildLimitProvider::new() }
    }
}

/// Splits the days and double hours between two times into years, months
/// and days.
pub fn split_double_hours(start: SolarTime, end: SolarTime) -> (span: (usize, usize, usize))
    requires
        start.wf(),
        end.wf(),
        0 <= end.seconds() - start.seconds() <= 100_000_000,
    ensures
        (span.0 as int, span.1 as int, span.2 as int) == span_by_double_hours(start, end),
        span.0 <= 400,
        span.1 < 12,
        span.2 < 30,
{
    let end_index: isize = if end.get_hour() == 23 {
        11
    } else {
        ((end.get_hour() + 1) / 2) as isize
    };
    let start_index: isize = if start.get_hour() == 23 {
        11
    } else {
        ((start.get_hour() + 1) / 2) as isize
    };
    let mut hour_diff: isize = end_index - start_index;
    let mut day_diff: isize = end.get_solar_day().subtract(start.get_solar_day());
    proof {
        assert(0 <= day_diff <= 1158);
        if day_diff == 0 {
            assert(end.second_of_day() >= start.second_of_day());
            assert(end.hour() >= start.hour());
        }
    }
    if hour_diff < 0 {
        hour_diff = hour_diff + 12;
        day_diff = day_diff - 1;
    }
    let month_diff: isize = hour_diff * 10 / 30;
    let mut month: isize = day_diff * 4 + month_diff;
    let day: isize = hour_diff * 10 - month_diff * 30;
    let year: isize = month / 12;
    month = month - year * 12;
    (year as usize, month as usize, day as usize)
}

impl ChildLimitProvider for LunarSect1ChildLimitProvider {
    /// By days and double hours between the earlier and the later of the two
    /// times.
    fn get_info(&self, birth_time: SolarTime, term_time: SolarTime) -> (info: ChildLimitInfo)
        ensures
            ({
                let span = if birth_time.seconds() > term_time.seconds() {
                    span_by_double_hours(term_time, birth_time)
                } else {
                    span_by_double_hours(birth_time, term_time)
                };
                is_limit(info, birth_time, span.0, span.1, span.2, 0, 0, 0)
            }),
    {
        let mut end: SolarTime = term_time;
        let mut start: SolarTime = birth_time;
        if birth_time.is_after(term_time) {
            end = birth_time;
            start = term_time;
        }
        let (year, month, day) = split_double_hours(start, end);
        self.parent.next(birth_time, year, month, day, 0, 0, 0)
    }
}

impl LunarSect2ChildLimitProvider {
    /// The rule.
    pub fn new() -> Self {
        Self { parent: AbstractChildLimitProvider::new() }
    }
}

impl ChildLimitProvider for LunarSect2ChildLimitProvider {
    /// By whole minutes, down to hours.
    fn get_info(&self, birth_time: SolarTime, term_time: SolarTime) -> (info: ChildLimitInfo)
        ensures
            ({
                let span = span_by_minutes(span_between(birth_time, term_time) / 60);
                is_limit(info, birth_time, span.0, span.1, span.2, span.3, 0, 0)
            }),
    {
        let total: usize = seconds_between(birth_time, term_time) / 60;
        let (year, month, day, hour) = split_minutes(total);
        self.parent.next(birth_time, year, month, day, hour, 0, 0)
    }
}

impl<P: EightCharProvider> EightCharService<P> {
    /// The rule that the service asks.
    pub closed spec fn provider(&self) -> P {
        self.provider
    }

    /// The service of a rule.
    pub fn new(provider: P) -> (service: Self)
        ensures
            service.provider() == provider,
    {
        Self { provider }
    }

    /// The four pillars of an hour by the rule: what the rule of the service
    /// gives for the hour.
    pub fn get_eight_char(&self, lunar: LunarHour) -> (pillars: EightChar)
        ensures
            call_ensures(P::get_eight_char, (&self.provider(), lunar), pillars),
    {
        self.provider.get_eight_char(lunar)
    }
}

impl<P: ChildLimitProvider> ChildLimitService<P> {
    /// The rule that the service asks.
    pub closed spec fn provider(&self) -> P {
        self.provider
    }

    /// The service of a rule.
    pub fn new(provider: P) -> (service: Self)
        ensures
            service.provider() == provider,
    {
        Self { provider }
    }

    /// The span from a birth to the first span of luck by the rule: what the
    /// rule of the service gives for the birth and the term.
    pub fn get_info(&self, birth_time: SolarTime, term_time: SolarTime) -> (info: ChildLimitInfo)
        requires
            birth_in_range(birth_time),
            term_time.wf(),
            term_near(birth_time, term_time),
        ensures
            call_ensures(P::get_info, (&self.provider(), birth_time, term_time), info),
    {
        self.provider.get_info(birth_time, term_time)
    }
}

} // verus!
