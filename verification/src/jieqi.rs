//! The twenty-four solar terms, counted from the beginning of spring.

use vstd::prelude::*;

verus! {

/// A solar term.
#[derive(Clone, Copy, Debug, PartialEq, Eq, Structural)]
pub enum JieQi {
    LiChun,
    YuShui,
    JingZhe,
    ChunFen,
    QingMing,
    GuYu,
    LiXia,
    XiaoMan,
    MangZhong,
    XiaZhi,
    XiaoShu,
    DaShu,
    LiQiu,
    ChuShu,
    BaiLu,
    QiuFen,
    HanLu,
    ShuangJiang,
    LiDong,
    XiaoXue,
    DaXue,
    DongZhi,
    XiaoHan,
    DaHan,
}

impl JieQi {
    /// The place of the term in the year, from 0 at the beginning of spring.
    pub open spec fn index(self) -> nat {
        match self {
            JieQi::LiChun => 0,
            JieQi::YuShui => 1,
            JieQi::JingZhe => 2,
            JieQi::ChunFen => 3,
            JieQi::QingMing => 4,
            JieQi::GuYu => 5,
            JieQi::LiXia => 6,
            JieQi::XiaoMan => 7,
            JieQi::MangZhong => 8,
            JieQi::XiaZhi => 9,
            JieQi::XiaoShu => 10,
            JieQi::DaShu => 11,
            JieQi::LiQiu => 12,
            JieQi::ChuShu => 13,
            JieQi::BaiLu => 14,
            JieQi::QiuFen => 15,
            JieQi::HanLu => 16,
            JieQi::ShuangJiang => 17,
            JieQi::LiDong => 18,
            JieQi::XiaoXue => 19,
            JieQi::DaXue => 20,
            JieQi::DongZhi => 21,
            JieQi::XiaoHan => 22,
            JieQi::DaHan => 23,
        }
    }

    /// The written name of the term.
    pub open spec fn name_of(self) -> Seq<char> {
        match self {
            JieQi::LiChun => "立春"@,
            JieQi::YuShui => "雨水"@,
            JieQi::JingZhe => "惊蛰"@,
            JieQi::ChunFen => "春分"@,
            JieQi::QingMing => "清明"@,
            JieQi::GuYu => "谷雨"@,
            JieQi::LiXia => "立夏"@,
            JieQi::XiaoMan => "小满"@,
            JieQi::MangZhong => "芒种"@,
            JieQi::XiaZhi => "夏至"@,
            JieQi::XiaoShu => "小暑"@,
            JieQi::DaShu => "大暑"@,
            JieQi::LiQiu => "立秋"@,
            JieQi::ChuShu => "处暑"@,
            JieQi::BaiLu => "白露"@,
            JieQi::QiuFen => "秋分"@,
            JieQi::HanLu => "寒露"@,
            JieQi::ShuangJiang => "霜降"@,
            JieQi::LiDong => "立冬"@,
            JieQi::XiaoXue => "小雪"@,
            JieQi::DaXue => "大雪"@,
            JieQi::DongZhi => "冬至"@,
            JieQi::XiaoHan => "小寒"@,
            JieQi::DaHan => "大寒"@,
        }
    }

    /// The written name of the term.
    pub fn name(&self) -> (s: &'static str)
        ensures
            s@ == self.name_of(),
    {
        match self {
            JieQi::LiChun => "立春",
            JieQi::YuShui => "雨水",
            JieQi::JingZhe => "惊蛰",
            JieQi::ChunFen => "春分",
            JieQi::QingMing => "清明",
            JieQi::GuYu => "谷雨",
            JieQi::LiXia => "立夏",
            JieQi::XiaoMan => "小满",
            JieQi::MangZhong => "芒种",
            JieQi::XiaZhi => "夏至",
            JieQi::XiaoShu => "小暑",
            JieQi::DaShu => "大暑",
            JieQi::LiQiu => "立秋",
            JieQi::ChuShu => "处暑",
            JieQi::BaiLu => "白露",
            JieQi::QiuFen => "秋分",
            JieQi::HanLu => "寒露",
            JieQi::ShuangJiang => "霜降",
            JieQi::LiDong => "立冬",
            JieQi::XiaoXue => "小雪",
            JieQi::DaXue => "大雪",
            JieQi::DongZhi => "冬至",
            JieQi::XiaoHan => "小寒",
            JieQi::DaHan => "大寒",
        }
    }

    /// The place of the term in the year, from 0 to 23.
    pub fn to_index(self) -> (i: u8)
        ensures
            i == self.index(),
            i < 24,
    {
        match self {
            JieQi::LiChun => 0,
            JieQi::YuShui => 1,
            JieQi::JingZhe => 2,
            JieQi::ChunFen => 3,
            JieQi::QingMing => 4,
            JieQi::GuYu => 5,
            JieQi::LiXia => 6,
            JieQi::XiaoMan => 7,
            JieQi::MangZhong => 8,
            JieQi::XiaZhi => 9,
            JieQi::XiaoShu => 10,
            JieQi::DaShu => 11,
            JieQi::LiQiu => 12,
            JieQi::ChuShu => 13,
            JieQi::BaiLu => 14,
            JieQi::QiuFen => 15,
            JieQi::HanLu => 16,
            JieQi::ShuangJiang => 17,
            JieQi::LiDong => 18,
            JieQi::XiaoXue => 19,
            JieQi::DaXue => 20,
            JieQi::DongZhi => 21,
            JieQi::XiaoHan => 22,
            JieQi::DaHan => 23,
        }
    }

    /// The term at place `index`; none from 24 on.
    pub fn from_index(index: u8) -> (r: Option<Self>)
        ensures
            index < 24 <==> r is Some,
            r is Some ==> r->0.index() == index,
    {
        match index {
            0 => Some(JieQi::LiChun),
            1 => Some(JieQi::YuShui),
            2 => Some(JieQi::JingZhe),
            3 => Some(JieQi::ChunFen),
            4 => Some(JieQi::QingMing),
            5 => Some(JieQi::GuYu),
            6 => Some(JieQi::LiXia),
            7 => Some(JieQi::XiaoMan),
            8 => Some(JieQi::MangZhong),
            9 => Some(JieQi::XiaZhi),
            10 => Some(JieQi::XiaoShu),
            11 => Some(JieQi::DaShu),
            12 => Some(JieQi::LiQiu),
            13 => Some(JieQi::ChuShu),
            14 => Some(JieQi::BaiLu),
            15 => Some(JieQi::QiuFen),
            16 => Some(JieQi::HanLu),
            17 => Some(JieQi::ShuangJiang),
            18 => Some(JieQi::LiDong),
            19 => Some(JieQi::XiaoXue),
            20 => Some(JieQi::DaXue),
            21 => Some(JieQi::DongZhi),
            22 => Some(JieQi::XiaoHan),
            23 => Some(JieQi::DaHan),
            _ => None,
        }
    }

    /// Two terms at the same place are the same term.
    pub proof fn lemma_index_decides(a: JieQi, b: JieQi)
        requires
            a.index() == b.index(),
        ensures
            a == b,
    {
    }
}

} // verus!
