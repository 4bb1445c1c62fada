//! The years, months and days of the civil calendar: the Julian calendar up
//! to 4 October 1582, the Gregorian from 15 October 1582 on.

use vstd::prelude::*;
use crate::culture::index_of;
use crate::text::{append_decimal, decimal_text};

verus! {

/// Whether a year of the civil calendar has a leap day: every fourth year
/// before 1600, and from then on every fourth year but the centuries that
/// 400 does not divide.
pub open spec fn is_leap_year(year: int) -> bool {
    if year < 1600 {
        year % 4 == 0
    } else {
        (year % 4 == 0 && year % 100 != 0) || year % 400 == 0
    }
}

/// The number of days of a month of the civil calendar. October 1582 has 21:
/// the ten days after the 4th were left out.
pub open spec fn days_in_month(year: int, month: int) -> int {
    if year == 1582 && month == 10 {
        21
    } else if month == 2 {
        if is_leap_year(year) {
            29
        } else {
            28
        }
    } else if month == 4 || month == 6 || month == 9 || month == 11 {
        30
    } else {
        31
    }
}

/// Whether a year is one that the calendar holds.
pub open spec fn valid_year(year: int) -> bool {
    1 <= year <= 9999
}

/// Whether a year and a month name a month of the calendar.
pub open spec fn valid_month(year: int, month: int) -> bool {
    valid_year(year) && 1 <= month <= 12
}

/// Whether a year, a month and a day name a day of the calendar: in October
/// 1582 the days 5 to 14 do not exist, and the month runs to the 31st.
pub open spec fn valid_day(year: int, month: int, day: int) -> bool {
    &&& valid_month(year, month)
    &&& 1 <= day
    &&& if year == 1582 && month == 10 {
        (day <= 4 || day >= 15) && day <= 31
    } else {
        day <= days_in_month(year, month)
    }
}

/// A year of the civil calendar, 1 to 9999.
#[derive(Clone, Copy, Debug, PartialEq, Eq, Structural)]
pub struct SolarYear {
    year: isize,
}

/// A month of the civil calendar.
#[derive(Clone, Copy, Debug, PartialEq, Eq, Structural)]
pub struct SolarMonth {
    year: SolarYear,
    month: usize,
}

/// A day of the civil calendar.
#[derive(Clone, Copy, Debug, PartialEq, Eq, Structural)]
pub struct SolarDay {
    month: SolarMonth,
    day: usize,
}

impl SolarYear {
    /// The number of the year.
    pub closed spec fn view(&self) -> int {
        self.year as int
    }

    /// The year is one that the calendar holds.
    pub open spec fn wf(&self) -> bool {
        valid_year(self@)
    }

    /// The written form of a year: its number, then the word for year.
    pub open spec fn name_of(year: int) -> Seq<char> {
        decimal_text(year as nat) + "年"@
    }

    /// The year of the given number.
    pub fn from_year(year: isize) -> (r: Self)
        requires
            valid_year(year as int),
        ensures
            r.wf(),
            r@ == year,
    {
        Self { year }
    }

    /// The number of the year.
    pub fn get_year(&self) -> (year: isize)
        ensures
            year == self@,
    {
        self.year
    }

    /// Whether the year has a leap day.
    pub fn is_leap(&self) -> (leap: bool)
        requires
            self.wf(),
        ensures
            leap == is_leap_year(self@),
    {
        if self.year < 1600 {
            self.year % 4 == 0
        } else {
            (self.year % 4 == 0 && self.year % 100 != 0) || self.year % 400 == 0
        }
    }

    /// The number of days of the year; 1582 has ten fewer.
    pub fn get_day_count(&self) -> (days: usize)
        requires
            self.wf(),
        ensures
            days == if self@ == 1582 {
                355int
            } else if is_leap_year(self@) {
                366int
            } else {
                365int
            },
    {
        if self.year == 1582 {
            355
        } else if self.is_leap() {
            366
        } else {
            365
        }
    }

    /// The written form of the year.
    pub fn get_name(&self) -> (s: String)
        requires
            self.wf(),
        ensures
            s@ == Self::name_of(self@),
    {
        let mut s: String = String::new();
        append_decimal(&mut s, self.year as usize);
        s.append("年");
        s
    }

    /// The year `n` years on.
    pub fn next(&self, n: isize) -> (r: Self)
        requires
            self.wf(),
            valid_year(self@ + n),
        ensures
            r.wf(),
            r@ == self@ + n,
    {
        Self { year: self.year + n }
    }
}

impl SolarMonth {
    /// The number of the month's year.
    pub closed spec fn year(&self) -> int {
        self.year@
    }

    /// The number of the month in its year.
    pub closed spec fn month(&self) -> int {
        self.month as int
    }

    /// The month is one of the calendar.
    pub open spec fn wf(&self) -> bool {
        valid_month(self.year(), self.month())
    }

    /// The months from the beginning of year 0 to the beginning of this one.
    pub open spec fn ordinal(&self) -> int {
        self.year() * 12 + self.month() - 1
    }

    /// The month of the given year and number.
    pub fn from_ym(year: isize, month: usize) -> (r: Self)
        requires
            valid_month(year as int, month as int),
        ensures
            r.wf(),
            r.year() == year,
            r.month() == month,
    {
        Self { year: SolarYear::from_year(year), month }
    }

    /// The number of the month's year.
    pub fn get_year(&self) -> (year: isize)
        ensures
            year == self.year(),
    {
        self.year.get_year()
    }

    /// The number of the month in its year.
    pub fn get_month(&self) -> (month: usize)
        ensures
            month == self.month(),
    {
        self.month
    }

    /// The number of days of the month.
    pub fn get_day_count(&self) -> (days: usize)
        requires
            self.wf(),
        ensures
            days == days_in_month(self.year(), self.month()),
            21 <= days <= 31,
    {
        if self.year.get_year() == 1582 && self.month == 10 {
            21
        } else if self.month == 2 {
            if self.year.is_leap() {
                29
            } else {
                28
            }
        } else if self.month == 4 || self.month == 6 || self.month == 9 || self.month == 11 {
            30
        } else {
            31
        }
    }

    /// The month `n` months on; back for a negative `n`.
    pub fn next(&self, n: isize) -> (r: Self)
        requires
            self.wf(),
            -200_000 <= n <= 200_000,
            12 <= self.ordinal() + n < 120_000,
        ensures
            r.wf(),
            r.ordinal() == self.ordinal() + n,
    {
        let i: isize = self.month as isize - 1 + n;
        let total: isize = self.year.get_year() * 12 + i;
        let year: isize = total / 12;
        let month: usize = index_of(i, 12) + 1;
        proof {
            let y12 = self.year() * 12;
            assert((y12 + i) % 12 == i % 12) by {
                vstd::arithmetic::div_mod::lemma_mod_multiples_vanish(self.year(), i as int, 12);
            }
        }
        Self::from_ym(year, month)
    }
}

impl SolarDay {
    /// The number of the day's year.
    pub closed spec fn year(&self) -> int {
        self.month.year()
    }

    /// The number of the day's month in its year.
    pub closed spec fn month(&self) -> int {
        self.month.month()
    }

    /// The number of the day in its month.
    pub closed spec fn day(&self) -> int {
        self.day as int
    }

    /// The day is one of the calendar.
    pub open spec fn wf(&self) -> bool {
        valid_day(self.year(), self.month(), self.day())
    }

    /// Two days with the same year, month and number are the same day.
    pub proof fn lemma_parts_decide(a: SolarDay, b: SolarDay)
        requires
            a.year() == b.year(),
            a.month() == b.month(),
            a.day() == b.day(),
        ensures
            a == b,
    {
    }

    /// The written form of a day: the numbers of its year, month and day, each
    /// followed by its word.
    pub open spec fn name_of(year: int, month: int, day: int) -> Seq<char> {
        decimal_text(year as nat) + "年"@ + decimal_text(month as nat) + "月"@ + decimal_text(
            day as nat,
        ) + "日"@
    }

    /// The day of the given year, month and number.
    pub fn from_ymd(year: isize, month: usize, day: usize) -> (r: Self)
        requires
            valid_day(year as int, month as int, day as int),
        ensures
            r.wf(),
            r.year() == year,
            r.month() == month,
            r.day() == day,
    {
        Self { month: SolarMonth::from_ym(year, month), day }
    }

    /// Whether a year, a month and a day name a day of the calendar.
    pub fn is_valid(year: isize, month: usize, day: usize) -> (ok: bool)
        ensures
            ok == valid_day(year as int, month as int, day as int),
    {
        if year < 1 || year > 9999 || month < 1 || month > 12 || day < 1 {
            return false;
        }
        if year == 1582 && month == 10 {
            (day <= 4 || day >= 15) && day <= 31
        } else {
            day <= SolarMonth::from_ym(year, month).get_day_count()
        }
    }

    /// The day's month.
    pub fn get_solar_month(&self) -> (m: SolarMonth)
        ensures
            m.year() == self.year(),
            m.month() == self.month(),
    {
        self.month
    }

    /// The number of the day's year.
    pub fn get_year(&self) -> (year: isize)
        ensures
            year == self.year(),
    {
        self.month.get_year()
    }

    /// The number of the day's month in its year.
    pub fn get_month(&self) -> (month: usize)
        ensures
            month == self.month(),
    {
        self.month.get_month()
    }

    /// The number of the day in its month.
    pub fn get_day(&self) -> (day: usize)
        ensures
            day == self.day(),
    {
        self.day
    }

    /// The written form of the day.
    pub fn get_name(&self) -> (s: String)
        requires
            self.wf(),
        ensures
            s@ == Self::name_of(self.year(), self.month(), self.day()),
    {
        let mut s: String = String::new();
        append_decimal(&mut s, self.month.get_year() as usize);
        s.append("年");
        append_decimal(&mut s, self.month.get_month());
        s.append("月");
        append_decimal(&mut s, self.day);
        s.append("日");
        s
    }

    /// The written form of the day.
    pub fn to_string(&self) -> (s: String)
        requires
            self.wf(),
        ensures
            s@ == Self::name_of(self.year(), self.month(), self.day()),
    {
        self.get_name()
    }
}

/// The number of a day in the unbroken count of days that has day 2451545 on
/// 1 January 2000: for a date from 15 October 1582 on by the Gregorian
/// calendar, for an earlier one by the Julian.
pub open spec fn day_number(year: int, month: int, day: int) -> int {
    let gregorian = year * 372 + month * 31 + day >= 588829;
    let (y, m) = if month <= 2 {
        (year - 1, month + 12)
    } else {
        (year, month)
    };
    let centuries = if gregorian {
        2 - y / 100 + y / 100 / 4
    } else {
        0
    };
    (1461 * (y + 4716)) / 4 + (306001 * (m + 1)) / 10000 + day + centuries - 1524
}

/// The month after a month of the calendar.
pub open spec fn month_following(year: int, month: int) -> (int, int) {
    if month == 12 {
        (year + 1, 1)
    } else {
        (year, month + 1)
    }
}

/// The month before a month of the calendar.
pub open spec fn month_preceding(year: int, month: int) -> (int, int) {
    if month == 1 {
        (year - 1, 12)
    } else {
        (year, month - 1)
    }
}

/// The day of a month that lies `offset` days after its first: in October
/// 1582 the days after the 4th are numbered from the 15th.
pub open spec fn day_at_offset(year: int, month: int, offset: int) -> int {
    if year == 1582 && month == 10 && offset >= 4 {
        offset + 11
    } else {
        offset + 1
    }
}

/// The first day of a month follows the first day of the month before by the
/// length of that month.
pub proof fn lemma_month_length(year: int, month: int)
    requires
        valid_month(year, month),
    ensures
        ({
            let (y, m) = month_following(year, month);
            day_number(y, m, 1) == day_number(year, month, 1) + days_in_month(year, month)
        }),
{
    if month == 1 {
    } else if month == 2 {
    } else if month == 3 {
    } else if month == 4 {
    } else if month == 5 {
    } else if month == 6 {
    } else if month == 7 {
    } else if month == 8 {
    } else if month == 9 {
    } else if month == 10 {
    } else if month == 11 {
    } else {
    }
}

/// Inside a month the days are numbered one after the other, but for the gap
/// of October 1582.
pub proof fn lemma_day_in_month(year: int, month: int, offset: int)
    requires
        valid_month(year, month),
        0 <= offset < days_in_month(year, month),
    ensures
        valid_day(year, month, day_at_offset(year, month, offset)),
        day_number(year, month, day_at_offset(year, month, offset)) == day_number(year, month, 1)
            + offset,
{
}

/// The count of days begins at 1721424 on the first day of year 1 and ends
/// at 5373484 on the last day of year 9999.
pub proof fn lemma_day_number_ends()
    ensures
        day_number(1, 1, 1) == 1721424,
        day_number(9999, 12, 1) == 5373454,
        day_number(2000, 1, 1) == 2451545,
{
}

impl SolarDay {
    /// The number of the day in the unbroken count of days.
    pub open spec fn number(&self) -> int {
        day_number(self.year(), self.month(), self.day())
    }

    /// The number of the day in the unbroken count of days.
    pub fn get_day_number(&self) -> (n: i64)
        requires
            self.wf(),
        ensures
            n == self.number(),
            0 <= n <= 6_000_000,
    {
        let year: i64 = self.month.get_year() as i64;
        let month: i64 = self.month.get_month() as i64;
        let day: i64 = self.day as i64;
        let gregorian: bool = year * 372 + month * 31 + day >= 588829;
        let mut y: i64 = year;
        let mut m: i64 = month;
        if month <= 2 {
            y = year - 1;
            m = month + 12;
        }
        let centuries: i64 = if gregorian {
            2 - y / 100 + y / 100 / 4
        } else {
            0
        };
        (1461 * (y + 4716)) / 4 + (306001 * (m + 1)) / 10000 + day + centuries - 1524
    }

    /// The number of days from `target` to this day; negative if this day is
    /// the earlier.
    pub fn subtract(&self, target: SolarDay) -> (days: isize)
        requires
            self.wf(),
            target.wf(),
        ensures
            days == self.number() - target.number(),
    {
        (self.get_day_number() - target.get_day_number()) as isize
    }

    /// The offset of the day from the first of its month.
    fn offset_in_month(&self) -> (offset: i64)
        requires
            self.wf(),
        ensures
            0 <= offset < days_in_month(self.year(), self.month()),
            self.day() == day_at_offset(self.year(), self.month(), offset as int),
    {
        let day: i64 = self.day as i64;
        if self.month.get_year() == 1582 && self.month.get_month() == 10 && day >= 15 {
            day - 11
        } else {
            day - 1
        }
    }

    /// The day `n` days on, back for a negative `n`, within the years 1 to
    /// 9999.
    pub fn next(&self, n: isize) -> (r: Self)
        requires
            self.wf(),
            1721424 <= self.number() + n <= 5373484,
        ensures
            r.wf(),
            r.number() == self.number() + n,
    {
        let mut year: isize = self.month.get_year();
        let mut month: usize = self.month.get_month();
        let mut offset: i64 = self.offset_in_month() + n as i64;
        let ghost target = self.number() + n;
        proof {
            lemma_day_number_ends();
            lemma_day_in_month(self.year(), self.month(), self.offset_in_month_spec());
        }
        while offset < 0
            invariant
                valid_month(year as int, month as int),
                1721424 <= target <= 5373484,
                day_number(year as int, month as int, 1) + offset == target,
                -8_000_000 <= offset <= 8_000_000,
            decreases (if offset < 0 {
                -offset
            } else {
                0
            }),
        {
            proof {
                lemma_day_number_ends();
                let (py, pm) = month_preceding(year as int, month as int);
                if valid_month(py, pm) {
                    lemma_month_length(py, pm);
                }
            }
            if month == 1 {
                year = year - 1;
                month = 12;
            } else {
                month = month - 1;
            }
            offset = offset + SolarMonth::from_ym(year, month).get_day_count() as i64;
        }
        let mut count: i64 = SolarMonth::from_ym(year, month).get_day_count() as i64;
        while offset >= count
            invariant
                valid_month(year as int, month as int),
                1721424 <= target <= 5373484,
                day_number(year as int, month as int, 1) + offset == target,
                0 <= offset <= 8_000_000,
                count == days_in_month(year as int, month as int),
            decreases offset,
        {
            proof {
                lemma_day_number_ends();
                lemma_month_length(year as int, month as int);
            }
            offset = offset - count;
            if month == 12 {
                year = year + 1;
                month = 1;
            } else {
                month = month + 1;
            }
            count = SolarMonth::from_ym(year, month).get_day_count() as i64;
        }
        proof {
            lemma_day_in_month(year as int, month as int, offset as int);
        }
        let day: usize = if year == 1582 && month == 10 && offset >= 4 {
            (offset + 11) as usize
        } else {
            (offset + 1) as usize
        };
        Self::from_ymd(year, month, day)
    }

    /// The offset of the day from the first of its month.
    pub open spec fn offset_in_month_spec(&self) -> int {
        if self.year() == 1582 && self.month() == 10 && self.day() >= 15 {
            self.day() - 11
        } else {
            self.day() - 1
        }
    }

    /// Whether this day is before `target`.
    pub fn is_before(&self, target: SolarDay) -> (before: bool)
        requires
            self.wf(),
            target.wf(),
        ensures
            before == (self.number() < target.number()),
    {
        self.get_day_number() < target.get_day_number()
    }

    /// Whether this day is after `target`.
    pub fn is_after(&self, target: SolarDay) -> (after: bool)
        requires
            self.wf(),
            target.wf(),
        ensures
            after == (self.number() > target.number()),
    {
        self.get_day_number() > target.get_day_number()
    }
}

/// A second of a day of the civil calendar.
#[derive(Clone, Copy, Debug, PartialEq, Eq, Structural)]
pub struct SolarTime {
    day: SolarDay,
    hour: usize,
    minute: usize,
    second: usize,
}

impl SolarTime {
    /// The day of the time.
    pub closed spec fn day(&self) -> SolarDay {
        self.day
    }

    /// The hour of the day, 0 to 23.
    pub closed spec fn hour(&self) -> int {
        self.hour as int
    }

    /// The minute of the hour, 0 to 59.
    pub closed spec fn minute(&self) -> int {
        self.minute as int
    }

    /// The second of the minute, 0 to 59.
    pub closed spec fn second(&self) -> int {
        self.second as int
    }

    /// The day is of the calendar and the hour, minute and second are of a
    /// clock.
    pub open spec fn wf(&self) -> bool {
        self.day().wf() && 0 <= self.hour() < 24 && 0 <= self.minute() < 60 && 0 <= self.second()
            < 60
    }

    /// The seconds from the beginning of the day to the time.
    pub open spec fn second_of_day(&self) -> int {
        self.hour() * 3600 + self.minute() * 60 + self.second()
    }

    /// The seconds from the beginning of day 0 of the count of days to the
    /// time.
    pub open spec fn seconds(&self) -> int {
        self.day().number() * 86400 + self.second_of_day()
    }

    /// The time of the given date, hour, minute and second.
    pub fn from_ymd_hms(
        year: isize,
        month: usize,
        day: usize,
        hour: usize,
        minute: usize,
        second: usize,
    ) -> (r: Self)
        requires
            valid_day(year as int, month as int, day as int),
            hour < 24,
            minute < 60,
            second < 60,
        ensures
            r.wf(),
            r.day().year() == year,
            r.day().month() == month,
            r.day().day() == day,
            r.hour() == hour,
            r.minute() == minute,
            r.second() == second,
    {
        Self { day: SolarDay::from_ymd(year, month, day), hour, minute, second }
    }

    /// The day of the time.
    pub fn get_solar_day(&self) -> (d: SolarDay)
        ensures
            d == self.day(),
    {
        self.day
    }

    /// The year of the time.
    pub fn get_year(&self) -> (y: isize)
        ensures
            y == self.day().year(),
    {
        self.day.get_year()
    }

    /// The month of the time.
    pub fn get_month(&self) -> (m: usize)
        ensures
            m == self.day().month(),
    {
        self.day.get_month()
    }

    /// The day of the month of the time.
    pub fn get_day(&self) -> (d: usize)
        ensures
            d == self.day().day(),
    {
        self.day.get_day()
    }

    /// The hour of the day.
    pub fn get_hour(&self) -> (h: usize)
        ensures
            h == self.hour(),
    {
        self.hour
    }

    /// The minute of the hour.
    pub fn get_minute(&self) -> (m: usize)
        ensures
            m == self.minute(),
    {
        self.minute
    }

    /// The second of the minute.
    pub fn get_second(&self) -> (s: usize)
        ensures
            s == self.second(),
    {
        self.second
    }

    /// The seconds from `target` to this time; negative if this time is the
    /// earlier.
    pub fn subtract(&self, target: SolarTime) -> (seconds: i64)
        requires
            self.wf(),
            target.wf(),
        ensures
            seconds == self.seconds() - target.seconds(),
    {
        let mut days: i64 = self.day.subtract(target.get_solar_day()) as i64;
        let cs: i64 = (self.hour * 3600 + self.minute * 60 + self.second) as i64;
        let ts: i64 = (target.hour * 3600 + target.minute * 60 + target.second) as i64;
        let mut seconds: i64 = cs - ts;
        if seconds < 0 {
            seconds = seconds + 86400;
            days = days - 1;
        }
        seconds + days * 86400
    }

    /// Whether this time is after `target`.
    pub fn is_after(&self, target: SolarTime) -> (after: bool)
        requires
            self.wf(),
            target.wf(),
        ensures
            after == (self.seconds() > target.seconds()),
    {
        self.subtract(target) > 0
    }

    /// Whether this time is before `target`.
    pub fn is_before(&self, target: SolarTime) -> (before: bool)
        requires
            self.wf(),
            target.wf(),
        ensures
            before == (self.seconds() < target.seconds()),
    {
        self.subtract(target) < 0
    }
}

} // verus!
