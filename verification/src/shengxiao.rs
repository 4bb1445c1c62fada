//! The twelve animals of the years, each the companion of one earthly branch.

use vstd::prelude::*;
use crate::ganzhi::DiZhi;
use crate::types::LunarDate;

verus! {

/// An animal of the cycle of twelve.
#[derive(Clone, Copy, Debug, PartialEq, Eq, Structural)]
pub enum ShengXiao {
    Shu,
    Niu,
    Hu,
    Tu,
    Long,
    She,
    Ma,
    Yang,
    Hou,
    Ji,
    Gou,
    Zhu,
}

impl ShengXiao {
    /// The place of the animal in the cycle, from 0.
    pub open spec fn index(self) -> nat {
        match self {
            ShengXiao::Shu => 0,
            ShengXiao::Niu => 1,
            ShengXiao::Hu => 2,
            ShengXiao::Tu => 3,
            ShengXiao::Long => 4,
            ShengXiao::She => 5,
            ShengXiao::Ma => 6,
            ShengXiao::Yang => 7,
            ShengXiao::Hou => 8,
            ShengXiao::Ji => 9,
            ShengXiao::Gou => 10,
            ShengXiao::Zhu => 11,
        }
    }

    /// The animal at place `index` of the cycle, counted round.
    pub open spec fn at(index: nat) -> ShengXiao {
        if index % 12 == 0 {
            ShengXiao::Shu
        } else if index % 12 == 1 {
            ShengXiao::Niu
        } else if index % 12 == 2 {
            ShengXiao::Hu
        } else if index % 12 == 3 {
            ShengXiao::Tu
        } else if index % 12 == 4 {
            ShengXiao::Long
        } else if index % 12 == 5 {
            ShengXiao::She
        } else if index % 12 == 6 {
            ShengXiao::Ma
        } else if index % 12 == 7 {
            ShengXiao::Yang
        } else if index % 12 == 8 {
            ShengXiao::Hou
        } else if index % 12 == 9 {
            ShengXiao::Ji
        } else if index % 12 == 10 {
            ShengXiao::Gou
        } else {
            ShengXiao::Zhu
        }
    }

    /// The written name of the animal.
    pub open spec fn name(self) -> Seq<char> {
        match self {
            ShengXiao::Shu => "鼠"@,
            ShengXiao::Niu => "牛"@,
            ShengXiao::Hu => "虎"@,
            ShengXiao::Tu => "兔"@,
            ShengXiao::Long => "龙"@,
            ShengXiao::She => "蛇"@,
            ShengXiao::Ma => "马"@,
            ShengXiao::Yang => "羊"@,
            ShengXiao::Hou => "猴"@,
            ShengXiao::Ji => "鸡"@,
            ShengXiao::Gou => "狗"@,
            ShengXiao::Zhu => "猪"@,
        }
    }

    /// The animal of the year `year`, where 1984 is a year of the first
    /// animal and the year before year 1 is year 0.
    pub open spec fn of_year(year: int) -> ShengXiao {
        ShengXiao::at(((year - 1984) % 12) as nat)
    }

    /// The written name of the animal.
    pub fn as_str(&self) -> (s: &'static str)
        ensures
            s@ == self.name(),
    {
        match self {
            ShengXiao::Shu => "鼠",
            ShengXiao::Niu => "牛",
            ShengXiao::Hu => "虎",
            ShengXiao::Tu => "兔",
            ShengXiao::Long => "龙",
            ShengXiao::She => "蛇",
            ShengXiao::Ma => "马",
            ShengXiao::Yang => "羊",
            ShengXiao::Hou => "猴",
            ShengXiao::Ji => "鸡",
            ShengXiao::Gou => "狗",
            ShengXiao::Zhu => "猪",
        }
    }

    /// The animal at place `index` of the cycle; the cycle repeats after 12.
    pub fn from_index(index: usize) -> (r: Self)
        ensures
            r == Self::at(index as nat),
            r.index() == index % 12,
    {
        let i: usize = index % 12;
        if i == 0 {
            ShengXiao::Shu
        } else if i == 1 {
            ShengXiao::Niu
        } else if i == 2 {
            ShengXiao::Hu
        } else if i == 3 {
            ShengXiao::Tu
        } else if i == 4 {
            ShengXiao::Long
        } else if i == 5 {
            ShengXiao::She
        } else if i == 6 {
            ShengXiao::Ma
        } else if i == 7 {
            ShengXiao::Yang
        } else if i == 8 {
            ShengXiao::Hou
        } else if i == 9 {
            ShengXiao::Ji
        } else if i == 10 {
            ShengXiao::Gou
        } else {
            ShengXiao::Zhu
        }
    }

    /// The place of the animal in the cycle, from 0 to 11.
    pub fn to_index(&self) -> (i: usize)
        ensures
            i == self.index(),
            i < 12,
            Self::at(i as nat) == *self,
    {
        match self {
            ShengXiao::Shu => 0,
            ShengXiao::Niu => 1,
            ShengXiao::Hu => 2,
            ShengXiao::Tu => 3,
            ShengXiao::Long => 4,
            ShengXiao::She => 5,
            ShengXiao::Ma => 6,
            ShengXiao::Yang => 7,
            ShengXiao::Hou => 8,
            ShengXiao::Ji => 9,
            ShengXiao::Gou => 10,
            ShengXiao::Zhu => 11,
        }
    }

    /// The animal of the year `year`.
    pub fn from_lunar_year(year: i32) -> (r: Self)
        ensures
            r == Self::of_year(year as int),
    {
        let diff: i64 = year as i64 - 1984;
        let index: usize = ((diff % 12 + 12) % 12) as usize;
        Self::from_index(index)
    }

    /// The animal that goes with an earthly branch: the one at the same place
    /// of its cycle.
    pub fn from_dizhi(dizhi: DiZhi) -> (r: Self)
        ensures
            r.index() == dizhi.index(),
    {
        match dizhi {
            DiZhi::Zi => ShengXiao::Shu,
            DiZhi::Chou => ShengXiao::Niu,
            DiZhi::Yin => ShengXiao::Hu,
            DiZhi::Mao => ShengXiao::Tu,
            DiZhi::Chen => ShengXiao::Long,
            DiZhi::Si => ShengXiao::She,
            DiZhi::Wu => ShengXiao::Ma,
            DiZhi::Wei => ShengXiao::Yang,
            DiZhi::Shen => ShengXiao::Hou,
            DiZhi::You => ShengXiao::Ji,
            DiZhi::Xu => ShengXiao::Gou,
            DiZhi::Hai => ShengXiao::Zhu,
        }
    }

    /// The earthly branch that goes with the animal: the one at the same place
    /// of its cycle.
    pub fn to_dizhi(&self) -> (r: DiZhi)
        ensures
            r.index() == self.index(),
    {
        match self {
            ShengXiao::Shu => DiZhi::Zi,
            ShengXiao::Niu => DiZhi::Chou,
            ShengXiao::Hu => DiZhi::Yin,
            ShengXiao::Tu => DiZhi::Mao,
            ShengXiao::Long => DiZhi::Chen,
            ShengXiao::She => DiZhi::Si,
            ShengXiao::Ma => DiZhi::Wu,
            ShengXiao::Yang => DiZhi::Wei,
            ShengXiao::Hou => DiZhi::Shen,
            ShengXiao::Ji => DiZhi::You,
            ShengXiao::Gou => DiZhi::Xu,
            ShengXiao::Zhu => DiZhi::Hai,
        }
    }

    /// The written name as an owned string.
    pub fn to_string(&self) -> (s: String)
        ensures
            s@ == self.name(),
    {
        String::from_str(self.as_str())
    }

    /// Place and animal determine each other, and so do animal and branch.
    pub proof fn lemma_round_trip(x: ShengXiao, i: nat)
        ensures
            Self::at(x.index()) == x,
            Self::at(i).index() == i % 12,
            x.index() < 12,
    {
    }
}

impl LunarDate {
    /// The animal of the date's year.
    pub fn shengxiao(&self) -> (r: ShengXiao)
        ensures
            r == ShengXiao::of_year(self.year as int),
    {
        ShengXiao::from_lunar_year(self.year)
    }
}

} // verus!
