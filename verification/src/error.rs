//! What can go wrong in a calendar calculation.

use vstd::prelude::*;

verus! {

/// An error of a calendar calculation.
#[derive(Debug, PartialEq)]
pub enum CalendarError {
    /// The date does not exist; the text says which.
    InvalidDate(String),
    /// The number cannot be written; the text says which.
    InvalidNumber(String),
    /// A stem or a branch is out of range.
    InvalidGanZhi,
    /// A lunar month is outside 1 to 12.
    InvalidLunarMonth,
    /// A lunar day is outside 1 to 30.
    InvalidLunarDay,
    /// A day of the week is outside 0 to 6.
    InvalidWeek,
    /// A Julian day could not be converted; the text says why.
    JulianConversionError(String),
    /// A solar term could not be calculated; the text says why.
    JieQiCalculationError(String),
    /// Memory could not be had.
    AllocationError,
}

impl CalendarError {
    /// The message of the error: a fixed sentence, followed by the error's own
    /// text where it has one.
    pub open spec fn message_text(self) -> Seq<char> {
        match self {
            CalendarError::InvalidDate(detail) => "无效日期: "@ + detail@,
            CalendarError::InvalidNumber(detail) => "无效数字: "@ + detail@,
            CalendarError::InvalidGanZhi => "无效的天干地支索引"@,
            CalendarError::InvalidLunarMonth => "无效的农历月份"@,
            CalendarError::InvalidLunarDay => "无效的农历日期"@,
            CalendarError::InvalidWeek => "无效的星期索引"@,
            CalendarError::JulianConversionError(detail) => "儒略日转换失败: "@ + detail@,
            CalendarError::JieQiCalculationError(detail) => "节气计算失败: "@ + detail@,
            CalendarError::AllocationError => "内存分配失败"@,
        }
    }

    /// The message of the error.
    pub fn message(&self) -> (s: String)
        ensures
            s@ == self.message_text(),
    {
        match self {
            CalendarError::InvalidDate(detail) => String::from_str("无效日期: ").concat(
                detail.as_str(),
            ),
            CalendarError::InvalidNumber(detail) => String::from_str("无效数字: ").concat(
                detail.as_str(),
            ),
            CalendarError::InvalidGanZhi => String::from_str("无效的天干地支索引"),
            CalendarError::InvalidLunarMonth => String::from_str("无效的农历月份"),
            CalendarError::InvalidLunarDay => String::from_str("无效的农历日期"),
            CalendarError::InvalidWeek => String::from_str("无效的星期索引"),
            CalendarError::JulianConversionError(detail) => String::from_str(
                "儒略日转换失败: ",
            ).concat(detail.as_str()),
            CalendarError::JieQiCalculationError(detail) => String::from_str(
                "节气计算失败: ",
            ).concat(detail.as_str()),
            CalendarError::AllocationError => String::from_str("内存分配失败"),
        }
    }
}

} // verus!
