//! The written forms of a lunar date's year, month and day.

use vstd::prelude::*;
use crate::types::LunarDate;

verus! {

/// The written form of a digit, 0 to 9.
pub open spec fn digit_text(i: int) -> Seq<char> {
    if i == 0 {
        "零"@
    } else if i == 1 {
        "一"@
    } else if i == 2 {
        "二"@
    } else if i == 3 {
        "三"@
    } else if i == 4 {
        "四"@
    } else if i == 5 {
        "五"@
    } else if i == 6 {
        "六"@
    } else if i == 7 {
        "七"@
    } else if i == 8 {
        "八"@
    } else {
        "九"@
    }
}

/// The written name of a lunar month, 1 to 12.
pub open spec fn month_text(i: int) -> Seq<char> {
    if i == 1 {
        "正月"@
    } else if i == 2 {
        "二月"@
    } else if i == 3 {
        "三月"@
    } else if i == 4 {
        "四月"@
    } else if i == 5 {
        "五月"@
    } else if i == 6 {
        "六月"@
    } else if i == 7 {
        "七月"@
    } else if i == 8 {
        "八月"@
    } else if i == 9 {
        "九月"@
    } else if i == 10 {
        "十月"@
    } else if i == 11 {
        "冬月"@
    } else {
        "腊月"@
    }
}

/// The written name of a day of a lunar month, 1 to 30.
pub open spec fn day_text(i: int) -> Seq<char> {
    if i == 1 {
        "初一"@
    } else if i == 2 {
        "初二"@
    } else if i == 3 {
        "初三"@
    } else if i == 4 {
        "初四"@
    } else if i == 5 {
        "初五"@
    } else if i == 6 {
        "初六"@
    } else if i == 7 {
        "初七"@
    } else if i == 8 {
        "初八"@
    } else if i == 9 {
        "初九"@
    } else if i == 10 {
        "初十"@
    } else if i == 11 {
        "十一"@
    } else if i == 12 {
        "十二"@
    } else if i == 13 {
        "十三"@
    } else if i == 14 {
        "十四"@
    } else if i == 15 {
        "十五"@
    } else if i == 16 {
        "十六"@
    } else if i == 17 {
        "十七"@
    } else if i == 18 {
        "十八"@
    } else if i == 19 {
        "十九"@
    } else if i == 20 {
        "二十"@
    } else if i == 21 {
        "廿一"@
    } else if i == 22 {
        "廿二"@
    } else if i == 23 {
        "廿三"@
    } else if i == 24 {
        "廿四"@
    } else if i == 25 {
        "廿五"@
    } else if i == 26 {
        "廿六"@
    } else if i == 27 {
        "廿七"@
    } else if i == 28 {
        "廿八"@
    } else if i == 29 {
        "廿九"@
    } else {
        "三十"@
    }
}

/// The written form of a digit.
pub fn digit_str(i: u32) -> (s: &'static str)
    requires
        0 <= i <= 9,
    ensures
        s@ == digit_text(i as int),
{
    if i == 0 {
        "零"
    } else if i == 1 {
        "一"
    } else if i == 2 {
        "二"
    } else if i == 3 {
        "三"
    } else if i == 4 {
        "四"
    } else if i == 5 {
        "五"
    } else if i == 6 {
        "六"
    } else if i == 7 {
        "七"
    } else if i == 8 {
        "八"
    } else {
        "九"
    }
}

/// The written name of a lunar month.
pub fn month_str(i: u8) -> (s: &'static str)
    requires
        1 <= i <= 12,
    ensures
        s@ == month_text(i as int),
{
    if i == 1 {
        "正月"
    } else if i == 2 {
        "二月"
    } else if i == 3 {
        "三月"
    } else if i == 4 {
        "四月"
    } else if i == 5 {
        "五月"
    } else if i == 6 {
        "六月"
    } else if i == 7 {
        "七月"
    } else if i == 8 {
        "八月"
    } else if i == 9 {
        "九月"
    } else if i == 10 {
        "十月"
    } else if i == 11 {
        "冬月"
    } else {
        "腊月"
    }
}

/// The written name of a day of a lunar month.
pub fn day_str(i: u8) -> (s: &'static str)
    requires
        1 <= i <= 30,
    ensures
        s@ == day_text(i as int),
{
    if i == 1 {
        "初一"
    } else if i == 2 {
        "初二"
    } else if i == 3 {
        "初三"
    } else if i == 4 {
        "初四"
    } else if i == 5 {
        "初五"
    } else if i == 6 {
        "初六"
    } else if i == 7 {
        "初七"
    } else if i == 8 {
        "初八"
    } else if i == 9 {
        "初九"
    } else if i == 10 {
        "初十"
    } else if i == 11 {
        "十一"
    } else if i == 12 {
        "十二"
    } else if i == 13 {
        "十三"
    } else if i == 14 {
        "十四"
    } else if i == 15 {
        "十五"
    } else if i == 16 {
        "十六"
    } else if i == 17 {
        "十七"
    } else if i == 18 {
        "十八"
    } else if i == 19 {
        "十九"
    } else if i == 20 {
        "二十"
    } else if i == 21 {
        "廿一"
    } else if i == 22 {
        "廿二"
    } else if i == 23 {
        "廿三"
    } else if i == 24 {
        "廿四"
    } else if i == 25 {
        "廿五"
    } else if i == 26 {
        "廿六"
    } else if i == 27 {
        "廿七"
    } else if i == 28 {
        "廿八"
    } else if i == 29 {
        "廿九"
    } else {
        "三十"
    }
}

/// The digits of a number, each in its written form, the highest first.
pub open spec fn digits_text(n: nat) -> Seq<char>
    decreases n,
{
    if n < 10 {
        digit_text(n as int)
    } else {
        digits_text(n / 10) + digit_text((n % 10) as int)
    }
}

/// The written form of a year: a zero alone for the year 0; for any other
/// year its digits one by one and the word for year, after the word for
/// "before" if the year is negative.
pub open spec fn year_text(year: int) -> Seq<char> {
    if year == 0 {
        "零"@
    } else if year < 0 {
        "前"@ + digits_text((-year) as nat) + "年"@
    } else {
        digits_text(year as nat) + "年"@
    }
}

/// The written form of a month: nothing for a month outside 1 to 12, else the
/// month's name, after the word for "leap" in a leap month.
pub open spec fn lunar_month_text(month: int, is_leap_month: bool) -> Seq<char> {
    if month < 1 || month > 12 {
        Seq::empty()
    } else if is_leap_month {
        "闰"@ + month_text(month)
    } else {
        month_text(month)
    }
}

/// The written form of a day: nothing for a day outside 1 to 30.
pub open spec fn lunar_day_text(day: int) -> Seq<char> {
    if day < 1 || day > 30 {
        Seq::empty()
    } else {
        day_text(day)
    }
}

impl LunarDate {
    /// The year in writing. Years of up to four digits can be written.
    pub fn year_to_chinese(&self) -> (s: String)
        requires
            -10000 < self.year < 10000,
        ensures
            s@ == year_text(self.year as int),
    {
        let mut result: String = String::new();
        if self.year < 0 {
            result.append("前");
        }
        let abs_year: u32 = if self.year < 0 {
            (-self.year) as u32
        } else {
            self.year as u32
        };
        if abs_year == 0 {
            result.append("零");
            return result;
        }
        let ghost prefix = result@;
        let thousands: u32 = abs_year / 1000;
        let hundreds: u32 = abs_year / 100 % 10;
        let tens: u32 = abs_year / 10 % 10;
        let units: u32 = abs_year % 10;
        if abs_year >= 1000 {
            result.append(digit_str(thousands));
        }
        if abs_year >= 100 {
            result.append(digit_str(hundreds));
        }
        if abs_year >= 10 {
            result.append(digit_str(tens));
        }
        result.append(digit_str(units));
        proof {
            let n = abs_year as nat;
            let d0 = digit_text((n % 10) as int);
            let d1 = digit_text((n / 10 % 10) as int);
            let d2 = digit_text((n / 100 % 10) as int);
            let d3 = digit_text((n / 1000) as int);
            assert(n / 10 / 10 == n / 100);
            assert(n / 100 / 10 == n / 1000);
            if n < 10 {
                assert(digits_text(n) == d0);
            } else if n < 100 {
                assert(digits_text(n / 10) == d1);
                assert(digits_text(n) == d1 + d0);
                assert(result@ =~= prefix + (d1 + d0));
            } else if n < 1000 {
                assert(digits_text(n / 100) == d2);
                assert(digits_text(n / 10) == d2 + d1);
                assert(digits_text(n) == d2 + d1 + d0);
                assert(result@ =~= prefix + (d2 + d1 + d0));
            } else {
                assert(digits_text(n / 1000) == d3);
                assert(digits_text(n / 100) == d3 + d2);
                assert(digits_text(n / 10) == d3 + d2 + d1);
                assert(digits_text(n) == d3 + d2 + d1 + d0);
                assert(result@ =~= prefix + (d3 + d2 + d1 + d0));
            }
            assert(result@ =~= prefix + digits_text(n));
        }
        result.append("年");
        assert(result@ =~= year_text(self.year as int));
        result
    }

    /// The month in writing.
    pub fn month_to_chinese(&self) -> (s: String)
        ensures
            s@ == lunar_month_text(self.month as int, self.is_leap_month),
    {
        let mut result: String = String::new();
        if self.month < 1 || self.month > 12 {
            return result;
        }
        if self.is_leap_month {
            result.append("闰");
        }
        result.append(month_str(self.month));
        assert(result@ =~= lunar_month_text(self.month as int, self.is_leap_month));
        result
    }

    /// The day in writing.
    pub fn day_to_chinese(&self) -> (s: String)
        ensures
            s@ == lunar_day_text(self.day as int),
    {
        let mut result: String = String::new();
        if self.day < 1 || self.day > 30 {
            return result;
        }
        result.append(day_str(self.day));
        assert(result@ =~= lunar_day_text(self.day as int));
        result
    }
}

} // verus!
