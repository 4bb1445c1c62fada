//! The plain date types.

use vstd::prelude::*;
use crate::text::{append_decimal, append_signed_decimal, decimal_text, signed_decimal_text};

verus! {

/// A date of the lunar calendar.
#[derive(Clone, Copy, Debug, PartialEq, Eq, Structural)]
pub struct LunarDate {
    /// The year; the year before year 1 is year 0.
    pub year: i32,
    /// The month, 1 to 12.
    pub month: u8,
    /// The day of the month, 1 to 30.
    pub day: u8,
    /// Whether the month is the leap month of its number.
    pub is_leap_month: bool,
}

/// A number below 100 in two digits.
pub open spec fn two_digits_text(n: nat) -> Seq<char> {
    if n < 10 {
        seq!['0'] + decimal_text(n)
    } else {
        decimal_text(n)
    }
}

impl LunarDate {
    /// The date in writing: the year, the month and the day in figures with
    /// hyphens between them, the month and the day in at least two digits, the
    /// word for "leap" before the month of a leap month.
    pub open spec fn text(self) -> Seq<char> {
        signed_decimal_text(self.year as int) + (if self.is_leap_month {
            "-闰"@
        } else {
            "-"@
        }) + two_digits_text(self.month as nat) + "-"@ + two_digits_text(self.day as nat)
    }

    /// The date in writing.
    pub fn to_string(&self) -> (s: String)
        ensures
            s@ == self.text(),
    {
        let mut s: String = String::new();
        append_signed_decimal(&mut s, self.year as isize);
        if self.is_leap_month {
            s.append("-闰");
        } else {
            s.append("-");
        }
        if self.month < 10 {
            s.append("0");
            proof {
                reveal_strlit("0");
            }
        }
        append_decimal(&mut s, self.month as usize);
        s.append("-");
        if self.day < 10 {
            s.append("0");
            proof {
                reveal_strlit("0");
            }
        }
        append_decimal(&mut s, self.day as usize);
        assert(s@ =~= self.text());
        s
    }

    /// A lunar date of the given parts, taken as they are.
    pub fn new(year: i32, month: u8, day: u8, is_leap_month: bool) -> (date: Self)
        ensures
            date == (LunarDate { year, month, day, is_leap_month }),
    {
        Self { year, month, day, is_leap_month }
    }
}

} // verus!
