//! The ten heavenly stems, the twelve earthly branches, and the sixty pairs
//! that the two cycles make when they run side by side.

use vstd::prelude::*;

verus! {

/// A heavenly stem.
#[derive(Clone, Copy, Debug, PartialEq, Eq, Structural)]
pub enum TianGan {
    Jia,
    Yi,
    Bing,
    Ding,
    Wu,
    Ji,
    Geng,
    Xin,
    Ren,
    Gui,
}

impl TianGan {
    /// The place of the stem in its cycle, from 0.
    pub open spec fn index(self) -> nat {
        match self {
            TianGan::Jia => 0,
            TianGan::Yi => 1,
            TianGan::Bing => 2,
            TianGan::Ding => 3,
            TianGan::Wu => 4,
            TianGan::Ji => 5,
            TianGan::Geng => 6,
            TianGan::Xin => 7,
            TianGan::Ren => 8,
            TianGan::Gui => 9,
        }
    }

    /// The stem at place `index` of the cycle, counted round.
    pub open spec fn at(index: nat) -> TianGan {
        if index % 10 == 0 {
            TianGan::Jia
        } else if index % 10 == 1 {
            TianGan::Yi
        } else if index % 10 == 2 {
            TianGan::Bing
        } else if index % 10 == 3 {
            TianGan::Ding
        } else if index % 10 == 4 {
            TianGan::Wu
        } else if index % 10 == 5 {
            TianGan::Ji
        } else if index % 10 == 6 {
            TianGan::Geng
        } else if index % 10 == 7 {
            TianGan::Xin
        } else if index % 10 == 8 {
            TianGan::Ren
        } else {
            TianGan::Gui
        }
    }

    /// The written name of the stem.
    pub open spec fn name(self) -> Seq<char> {
        match self {
            TianGan::Jia => "甲"@,
            TianGan::Yi => "乙"@,
            TianGan::Bing => "丙"@,
            TianGan::Ding => "丁"@,
            TianGan::Wu => "戊"@,
            TianGan::Ji => "己"@,
            TianGan::Geng => "庚"@,
            TianGan::Xin => "辛"@,
            TianGan::Ren => "壬"@,
            TianGan::Gui => "癸"@,
        }
    }

    /// The written name of the stem.
    pub fn as_str(&self) -> (s: &'static str)
        ensures
            s@ == self.name(),
    {
        match self {
            TianGan::Jia => "甲",
            TianGan::Yi => "乙",
            TianGan::Bing => "丙",
            TianGan::Ding => "丁",
            TianGan::Wu => "戊",
            TianGan::Ji => "己",
            TianGan::Geng => "庚",
            TianGan::Xin => "辛",
            TianGan::Ren => "壬",
            TianGan::Gui => "癸",
        }
    }

    /// The stem at place `index` of the cycle; the cycle repeats after 10.
    pub fn from_index(index: usize) -> (r: Self)
        ensures
            r == Self::at(index as nat),
            r.index() == index % 10,
    {
        let i: usize = index % 10;
        if i == 0 {
            TianGan::Jia
        } else if i == 1 {
            TianGan::Yi
        } else if i == 2 {
            TianGan::Bing
        } else if i == 3 {
            TianGan::Ding
        } else if i == 4 {
            TianGan::Wu
        } else if i == 5 {
            TianGan::Ji
        } else if i == 6 {
            TianGan::Geng
        } else if i == 7 {
            TianGan::Xin
        } else if i == 8 {
            TianGan::Ren
        } else {
            TianGan::Gui
        }
    }

    /// The place of the stem in its cycle, from 0 to 9.
    pub fn to_index(&self) -> (i: usize)
        ensures
            i == self.index(),
            i < 10,
            Self::at(i as nat) == *self,
    {
        match self {
            TianGan::Jia => 0,
            TianGan::Yi => 1,
            TianGan::Bing => 2,
            TianGan::Ding => 3,
            TianGan::Wu => 4,
            TianGan::Ji => 5,
            TianGan::Geng => 6,
            TianGan::Xin => 7,
            TianGan::Ren => 8,
            TianGan::Gui => 9,
        }
    }

    /// The written name as an owned string.
    pub fn to_string(&self) -> (s: String)
        ensures
            s@ == self.name(),
    {
        String::from_str(self.as_str())
    }

    /// Place and stem determine each other: the stem at the place of a
    /// stem is that stem, and the place of the stem at a place is
    /// that place, counted round.
    pub proof fn lemma_round_trip(x: TianGan, i: nat)
        ensures
            Self::at(x.index()) == x,
            Self::at(i).index() == i % 10,
            x.index() < 10,
    {
    }
}

/// An earthly branch.
#[derive(Clone, Copy, Debug, PartialEq, Eq, Structural)]
pub enum DiZhi {
    Zi,
    Chou,
    Yin,
    Mao,
    Chen,
    Si,
    Wu,
    Wei,
    Shen,
    You,
    Xu,
    Hai,
}

impl DiZhi {
    /// The place of the branch in its cycle, from 0.
    pub open spec fn index(self) -> nat {
        match self {
            DiZhi::Zi => 0,
            DiZhi::Chou => 1,
            DiZhi::Yin => 2,
            DiZhi::Mao => 3,
            DiZhi::Chen => 4,
            DiZhi::Si => 5,
            DiZhi::Wu => 6,
            DiZhi::Wei => 7,
            DiZhi::Shen => 8,
            DiZhi::You => 9,
            DiZhi::Xu => 10,
            DiZhi::Hai => 11,
        }
    }

    /// The branch at place `index` of the cycle, counted round.
    pub open spec fn at(index: nat) -> DiZhi {
        if index % 12 == 0 {
            DiZhi::Zi
        } else if index % 12 == 1 {
            DiZhi::Chou
        } else if index % 12 == 2 {
            DiZhi::Yin
        } else if index % 12 == 3 {
            DiZhi::Mao
        } else if index % 12 == 4 {
            DiZhi::Chen
        } else if index % 12 == 5 {
            DiZhi::Si
        } else if index % 12 == 6 {
            DiZhi::Wu
        } else if index % 12 == 7 {
            DiZhi::Wei
        } else if index % 12 == 8 {
            DiZhi::Shen
        } else if index % 12 == 9 {
            DiZhi::You
        } else if index % 12 == 10 {
            DiZhi::Xu
        } else {
            DiZhi::Hai
        }
    }

    /// The written name of the branch.
    pub open spec fn name(self) -> Seq<char> {
        match self {
            DiZhi::Zi => "子"@,
            DiZhi::Chou => "丑"@,
            DiZhi::Yin => "寅"@,
            DiZhi::Mao => "卯"@,
            DiZhi::Chen => "辰"@,
            DiZhi::Si => "巳"@,
            DiZhi::Wu => "午"@,
            DiZhi::Wei => "未"@,
            DiZhi::Shen => "申"@,
            DiZhi::You => "酉"@,
            DiZhi::Xu => "戌"@,
            DiZhi::Hai => "亥"@,
        }
    }

    /// The written name of the branch.
    pub fn as_str(&self) -> (s: &'static str)
        ensures
            s@ == self.name(),
    {
        match self {
            DiZhi::Zi => "子",
            DiZhi::Chou => "丑",
            DiZhi::Yin => "寅",
            DiZhi::Mao => "卯",
            DiZhi::Chen => "辰",
            DiZhi::Si => "巳",
            DiZhi::Wu => "午",
            DiZhi::Wei => "未",
            DiZhi::Shen => "申",
            DiZhi::You => "酉",
            DiZhi::Xu => "戌",
            DiZhi::Hai => "亥",
        }
    }

    /// The branch at place `index` of the cycle; the cycle repeats after 12.
    pub fn from_index(index: usize) -> (r: Self)
        ensures
            r == Self::at(index as nat),
            r.index() == index % 12,
    {
        let i: usize = index % 12;
        if i == 0 {
            DiZhi::Zi
        } else if i == 1 {
            DiZhi::Chou
        } else if i == 2 {
            DiZhi::Yin
        } else if i == 3 {
            DiZhi::Mao
        } else if i == 4 {
            DiZhi::Chen
        } else if i == 5 {
            DiZhi::Si
        } else if i == 6 {
            DiZhi::Wu
        } else if i == 7 {
            DiZhi::Wei
        } else if i == 8 {
            DiZhi::Shen
        } else if i == 9 {
            DiZhi::You
        } else if i == 10 {
            DiZhi::Xu
        } else {
            DiZhi::Hai
        }
    }

    /// The place of the branch in its cycle, from 0 to 11.
    pub fn to_index(&self) -> (i: usize)
        ensures
            i == self.index(),
            i < 12,
            Self::at(i as nat) == *self,
    {
        match self {
            DiZhi::Zi => 0,
            DiZhi::Chou => 1,
            DiZhi::Yin => 2,
            DiZhi::Mao => 3,
            DiZhi::Chen => 4,
            DiZhi::Si => 5,
            DiZhi::Wu => 6,
            DiZhi::Wei => 7,
            DiZhi::Shen => 8,
            DiZhi::You => 9,
            DiZhi::Xu => 10,
            DiZhi::Hai => 11,
        }
    }

    /// The written name as an owned string.
    pub fn to_string(&self) -> (s: String)
        ensures
            s@ == self.name(),
    {
        String::from_str(self.as_str())
    }

    /// Place and branch determine each other: the branch at the place of a
    /// branch is that branch, and the place of the branch at a place is
    /// that place, counted round.
    pub proof fn lemma_round_trip(x: DiZhi, i: nat)
        ensures
            Self::at(x.index()) == x,
            Self::at(i).index() == i % 12,
            x.index() < 12,
    {
    }
}

/// A stem with a branch. The sixty pairs of the cycle are those whose two
/// places are both even or both odd.
#[derive(Clone, Copy, Debug, PartialEq, Eq, Structural)]
pub struct GanZhi(pub TianGan, pub DiZhi);

/// The year from which the cycle of years is counted: a year of the first
/// pair.
pub const REFERENCE_YEAR: i32 = 1984;

impl GanZhi {
    /// Whether the pair is one of the sixty of the cycle.
    pub open spec fn in_cycle(self) -> bool {
        (self.0.index() + self.1.index()) % 2 == 0
    }

    /// The place of the pair in the cycle of sixty: the one place whose stem
    /// and branch are those of the pair. A pair outside the cycle counts as
    /// place 0.
    pub open spec fn index(self) -> nat {
        if self.in_cycle() {
            ((6 * self.0.index() + 55 * self.1.index()) % 60) as nat
        } else {
            0
        }
    }

    /// The pair at place `index` of the cycle, counted round.
    pub open spec fn at(index: nat) -> GanZhi {
        GanZhi(TianGan::at(index % 60 % 10), DiZhi::at(index % 60 % 12))
    }

    /// The written name of the pair at place `index`: its stem, then its
    /// branch.
    pub open spec fn name_at(index: nat) -> Seq<char> {
        TianGan::at(index % 10).name() + DiZhi::at(index % 12).name()
    }

    /// The pair of the year `year`, where 1984 is a year of the first pair and
    /// the year before year 1 is year 0.
    pub open spec fn of_year(year: int) -> GanZhi {
        GanZhi(
            TianGan::at(((year - 1984) % 10) as nat),
            DiZhi::at(((year - 1984) % 12) as nat),
        )
    }

    /// The written name of the pair; that of the first pair for a pair
    /// outside the cycle.
    pub fn as_str(&self) -> (s: &'static str)
        ensures
            s@ == Self::name_at(self.index()),
    {
        let index: usize = self.to_index();
        sixty_name(index)
    }

    /// The pair at place `index` of the cycle; the cycle repeats after 60.
    pub fn from_index(index: usize) -> (r: Self)
        ensures
            r == Self::at(index as nat),
            r.in_cycle(),
            r.index() == index % 60,
    {
        let index: usize = index % 60;
        let gan_index: usize = index % 10;
        let zhi_index: usize = index % 12;
        let r = GanZhi(TianGan::from_index(gan_index), DiZhi::from_index(zhi_index));
        proof {
            lemma_index_of_places(index as nat);
        }
        r
    }

    /// The place of the pair in the cycle, from 0 to 59; 0 for a pair
    /// outside the cycle.
    pub fn to_index(&self) -> (i: usize)
        ensures
            i == self.index(),
            i < 60,
            self.in_cycle() ==> i % 10 == self.0.index() && i % 12 == self.1.index(),
            !self.in_cycle() ==> i == 0,
    {
        let gan_index: usize = self.0.to_index();
        let zhi_index: usize = self.1.to_index();
        let mut i: usize = 0;
        while i < 60
            invariant
                i <= 60,
                gan_index == self.0.index(),
                zhi_index == self.1.index(),
                forall|k: int| 0 <= k < i ==> !#[trigger] has_places(k, gan_index as int, zhi_index as int),
            decreases 60 - i,
        {
            if i % 10 == gan_index && i % 12 == zhi_index {
                proof {
                    lemma_place_is_index(*self, i as nat);
                }
                return i;
            }
            i = i + 1;
        }
        proof {
            if self.in_cycle() {
                let k = self.index() as int;
                lemma_index_has_places(*self);
                assert(has_places(k, gan_index as int, zhi_index as int));
            }
        }
        0
    }

    /// The pair of the year `year`.
    pub fn from_lunar_year(year: i32) -> (r: Self)
        ensures
            r == Self::of_year(year as int),
    {
        let diff: i64 = year as i64 - 1984;
        let tg_index: usize = ((diff % 10 + 10) % 10) as usize;
        let dz_index: usize = ((diff % 12 + 12) % 12) as usize;
        GanZhi(TianGan::from_index(tg_index), DiZhi::from_index(dz_index))
    }

    /// The written name as an owned string.
    pub fn to_string(&self) -> (s: String)
        ensures
            s@ == Self::name_at(self.index()),
    {
        String::from_str(self.as_str())
    }
}

/// Whether place `k` of the cycle of sixty has stem `gan` and branch `zhi`.
pub open spec fn has_places(k: int, gan: int, zhi: int) -> bool {
    k % 10 == gan && k % 12 == zhi
}

/// A place below 60 is the index of the pair made of its stem and branch.
pub proof fn lemma_index_of_places(i: nat)
    requires
        i < 60,
    ensures
        GanZhi::at(i).in_cycle(),
        GanZhi::at(i).index() == i,
{
    let g = i % 10;
    let z = i % 12;
    TianGan::lemma_round_trip(TianGan::Jia, g);
    DiZhi::lemma_round_trip(DiZhi::Zi, z);
    assert((g + z) % 2 == 0 && (6 * g + 55 * z) % 60 == i) by (nonlinear_arith)
        requires
            i < 60,
            g == i % 10,
            z == i % 12,
    ;
}

/// The index of a pair of the cycle has the stem and the branch of the pair.
pub proof fn lemma_index_has_places(pair: GanZhi)
    requires
        pair.in_cycle(),
    ensures
        pair.index() < 60,
        pair.index() % 10 == pair.0.index(),
        pair.index() % 12 == pair.1.index(),
{
    let g = pair.0.index();
    let z = pair.1.index();
    let k = (6 * g + 55 * z) % 60;
    assert(k % 10 == g && k % 12 == z) by (nonlinear_arith)
        requires
            g < 10,
            z < 12,
            (g + z) % 2 == 0,
            k == (6 * g + 55 * z) % 60,
    ;
}

/// A place below 60 with the stem and the branch of a pair is the index of
/// the pair: no other place has both.
pub proof fn lemma_place_is_index(pair: GanZhi, i: nat)
    requires
        i < 60,
        i % 10 == pair.0.index(),
        i % 12 == pair.1.index(),
    ensures
        pair.in_cycle(),
        pair.index() == i,
{
    lemma_index_of_places(i);
    TianGan::lemma_round_trip(pair.0, 0);
    DiZhi::lemma_round_trip(pair.1, 0);
}

/// Taking a pair of the cycle to its index and back gives the pair; taking
/// an index to its pair and back gives the index counted round.
pub proof fn lemma_index_round_trip(pair: GanZhi, i: nat)
    ensures
        pair.in_cycle() ==> GanZhi::at(pair.index()) == pair,
        GanZhi::at(i).index() == i % 60,
{
    if pair.in_cycle() {
        lemma_index_has_places(pair);
        TianGan::lemma_round_trip(pair.0, 0);
        DiZhi::lemma_round_trip(pair.1, 0);
    }
    lemma_index_of_places(i % 60);
}

/// The written names of places 0 to 9 of the cycle.
fn decade_0_name(index: usize) -> (s: &'static str)
    requires
        0 <= index < 10,
    ensures
        s@ == GanZhi::name_at(index as nat),
{
    if index == 0 {
        proof {
            reveal_strlit("甲子");
            reveal_strlit("甲");
            reveal_strlit("子");
        }
        assert("甲子"@ =~= "甲"@ + "子"@);
        "甲子"
    } else if index == 1 {
        proof {
            reveal_strlit("乙丑");
            reveal_strlit("乙");
            reveal_strlit("丑");
        }
        assert("乙丑"@ =~= "乙"@ + "丑"@);
        "乙丑"
    } else if index == 2 {
        proof {
            reveal_strlit("丙寅");
            reveal_strlit("丙");
            reveal_strlit("寅");
        }
        assert("丙寅"@ =~= "丙"@ + "寅"@);
        "丙寅"
    } else if index == 3 {
        proof {
            reveal_strlit("丁卯");
            reveal_strlit("丁");
            reveal_strlit("卯");
        }
        assert("丁卯"@ =~= "丁"@ + "卯"@);
        "丁卯"
    } else if index == 4 {
        proof {
            reveal_strlit("戊辰");
            reveal_strlit("戊");
            reveal_strlit("辰");
        }
        assert("戊辰"@ =~= "戊"@ + "辰"@);
        "戊辰"
    } else if index == 5 {
        proof {
            reveal_strlit("己巳");
            reveal_strlit("己");
            reveal_strlit("巳");
        }
        assert("己巳"@ =~= "己"@ + "巳"@);
        "己巳"
    } else if index == 6 {
        proof {
            reveal_strlit("庚午");
            reveal_strlit("庚");
            reveal_strlit("午");
        }
        assert("庚午"@ =~= "庚"@ + "午"@);
        "庚午"
    } else if index == 7 {
        proof {
            reveal_strlit("辛未");
            reveal_strlit("辛");
            reveal_strlit("未");
        }
        assert("辛未"@ =~= "辛"@ + "未"@);
        "辛未"
    } else if index == 8 {
        proof {
            reveal_strlit("壬申");
            reveal_strlit("壬");
            reveal_strlit("申");
        }
        assert("壬申"@ =~= "壬"@ + "申"@);
        "壬申"
    } else {
        proof {
            reveal_strlit("癸酉");
            reveal_strlit("癸");
            reveal_strlit("酉");
        }
        assert("癸酉"@ =~= "癸"@ + "酉"@);
        "癸酉"
    }
}

/// The written names of places 10 to 19 of the cycle.
fn decade_1_name(index: usize) -> (s: &'static str)
    requires
        10 <= index < 20,
    ensures
        s@ == GanZhi::name_at(index as nat),
{
    if index == 10 {
        proof {
            reveal_strlit("甲戌");
            reveal_strlit("甲");
            reveal_strlit("戌");
        }
        assert("甲戌"@ =~= "甲"@ + "戌"@);
        "甲戌"
    } else if index == 11 {
        proof {
            reveal_strlit("乙亥");
            reveal_strlit("乙");
            reveal_strlit("亥");
        }
        assert("乙亥"@ =~= "乙"@ + "亥"@);
        "乙亥"
    } else if index == 12 {
        proof {
            reveal_strlit("丙子");
            reveal_strlit("丙");
            reveal_strlit("子");
        }
        assert("丙子"@ =~= "丙"@ + "子"@);
        "丙子"
    } else if index == 13 {
        proof {
            reveal_strlit("丁丑");
            reveal_strlit("丁");
            reveal_strlit("丑");
        }
        assert("丁丑"@ =~= "丁"@ + "丑"@);
        "丁丑"
    } else if index == 14 {
        proof {
            reveal_strlit("戊寅");
            reveal_strlit("戊");
            reveal_strlit("寅");
        }
        assert("戊寅"@ =~= "戊"@ + "寅"@);
        "戊寅"
    } else if index == 15 {
        proof {
            reveal_strlit("己卯");
            reveal_strlit("己");
            reveal_strlit("卯");
        }
        assert("己卯"@ =~= "己"@ + "卯"@);
        "己卯"
    } else if index == 16 {
        proof {
            reveal_strlit("庚辰");
            reveal_strlit("庚");
            reveal_strlit("辰");
        }
        assert("庚辰"@ =~= "庚"@ + "辰"@);
        "庚辰"
    } else if index == 17 {
        proof {
            reveal_strlit("辛巳");
            reveal_strlit("辛");
            reveal_strlit("巳");
        }
        assert("辛巳"@ =~= "辛"@ + "巳"@);
        "辛巳"
    } else if index == 18 {
        proof {
            reveal_strlit("壬午");
            reveal_strlit("壬");
            reveal_strlit("午");
        }
        assert("壬午"@ =~= "壬"@ + "午"@);
        "壬午"
    } else {
        proof {
            reveal_strlit("癸未");
            reveal_strlit("癸");
            reveal_strlit("未");
        }
        assert("癸未"@ =~= "癸"@ + "未"@);
        "癸未"
    }
}

/// The written names of places 20 to 29 of the cycle.
fn decade_2_name(index: usize) -> (s: &'static str)
    requires
        20 <= index < 30,
    ensures
        s@ == GanZhi::name_at(index as nat),
{
    if index == 20 {
        proof {
            reveal_strlit("甲申");
            reveal_strlit("甲");
            reveal_strlit("申");
        }
        assert("甲申"@ =~= "甲"@ + "申"@);
        "甲申"
    } else if index == 21 {
        proof {
            reveal_strlit("乙酉");
            reveal_strlit("乙");
            reveal_strlit("酉");
        }
        assert("乙酉"@ =~= "乙"@ + "酉"@);
        "乙酉"
    } else if index == 22 {
        proof {
            reveal_strlit("丙戌");
            reveal_strlit("丙");
            reveal_strlit("戌");
        }
        assert("丙戌"@ =~= "丙"@ + "戌"@);
        "丙戌"
    } else if index == 23 {
        proof {
            reveal_strlit("丁亥");
            reveal_strlit("丁");
            reveal_strlit("亥");
        }
        assert("丁亥"@ =~= "丁"@ + "亥"@);
        "丁亥"
    } else if index == 24 {
        proof {
            reveal_strlit("戊子");
            reveal_strlit("戊");
            reveal_strlit("子");
        }
        assert("戊子"@ =~= "戊"@ + "子"@);
        "戊子"
    } else if index == 25 {
        proof {
            reveal_strlit("己丑");
            reveal_strlit("己");
            reveal_strlit("丑");
        }
        assert("己丑"@ =~= "己"@ + "丑"@);
        "己丑"
    } else if index == 26 {
        proof {
            reveal_strlit("庚寅");
            reveal_strlit("庚");
            reveal_strlit("寅");
        }
        assert("庚寅"@ =~= "庚"@ + "寅"@);
        "庚寅"
    } else if index == 27 {
        proof {
            reveal_strlit("辛卯");
            reveal_strlit("辛");
            reveal_strlit("卯");
        }
        assert("辛卯"@ =~= "辛"@ + "卯"@);
        "辛卯"
    } else if index == 28 {
        proof {
            reveal_strlit("壬辰");
            reveal_strlit("壬");
            reveal_strlit("辰");
        }
        assert("壬辰"@ =~= "壬"@ + "辰"@);
        "壬辰"
    } else {
        proof {
            reveal_strlit("癸巳");
            reveal_strlit("癸");
            reveal_strlit("巳");
        }
        assert("癸巳"@ =~= "癸"@ + "巳"@);
        "癸巳"
    }
}

/// The written names of places 30 to 39 of the cycle.
fn decade_3_name(index: usize) -> (s: &'static str)
    requires
        30 <= index < 40,
    ensures
        s@ == GanZhi::name_at(index as nat),
{
    if index == 30 {
        proof {
            reveal_strlit("甲午");
            reveal_strlit("甲");
            reveal_strlit("午");
        }
        assert("甲午"@ =~= "甲"@ + "午"@);
        "甲午"
    } else if index == 31 {
        proof {
            reveal_strlit("乙未");
            reveal_strlit("乙");
            reveal_strlit("未");
        }
        assert("乙未"@ =~= "乙"@ + "未"@);
        "乙未"
    } else if index == 32 {
        proof {
            reveal_strlit("丙申");
            reveal_strlit("丙");
            reveal_strlit("申");
        }
        assert("丙申"@ =~= "丙"@ + "申"@);
        "丙申"
    } else if index == 33 {
        proof {
            reveal_strlit("丁酉");
            reveal_strlit("丁");
            reveal_strlit("酉");
        }
        assert("丁酉"@ =~= "丁"@ + "酉"@);
        "丁酉"
    } else if index == 34 {
        proof {
            reveal_strlit("戊戌");
            reveal_strlit("戊");
            reveal_strlit("戌");
        }
        assert("戊戌"@ =~= "戊"@ + "戌"@);
        "戊戌"
    } else if index == 35 {
        proof {
            reveal_strlit("己亥");
            reveal_strlit("己");
            reveal_strlit("亥");
        }
        assert("己亥"@ =~= "己"@ + "亥"@);
        "己亥"
    } else if index == 36 {
        proof {
            reveal_strlit("庚子");
            reveal_strlit("庚");
            reveal_strlit("子");
        }
        assert("庚子"@ =~= "庚"@ + "子"@);
        "庚子"
    } else if index == 37 {
        proof {
            reveal_strlit("辛丑");
            reveal_strlit("辛");
            reveal_strlit("丑");
        }
        assert("辛丑"@ =~= "辛"@ + "丑"@);
        "辛丑"
    } else if index == 38 {
        proof {
            reveal_strlit("壬寅");
            reveal_strlit("壬");
            reveal_strlit("寅");
        }
        assert("壬寅"@ =~= "壬"@ + "寅"@);
        "壬寅"
    } else {
        proof {
            reveal_strlit("癸卯");
            reveal_strlit("癸");
            reveal_strlit("卯");
        }
        assert("癸卯"@ =~= "癸"@ + "卯"@);
        "癸卯"
    }
}

/// The written names of places 40 to 49 of the cycle.
fn decade_4_name(index: usize) -> (s: &'static str)
    requires
        40 <= index < 50,
    ensures
        s@ == GanZhi::name_at(index as nat),
{
    if index == 40 {
        proof {
            reveal_strlit("甲辰");
            reveal_strlit("甲");
            reveal_strlit("辰");
        }
        assert("甲辰"@ =~= "甲"@ + "辰"@);
        "甲辰"
    } else if index == 41 {
        proof {
            reveal_strlit("乙巳");
            reveal_strlit("乙");
            reveal_strlit("巳");
        }
        assert("乙巳"@ =~= "乙"@ + "巳"@);
        "乙巳"
    } else if index == 42 {
        proof {
            reveal_strlit("丙午");
            reveal_strlit("丙");
            reveal_strlit("午");
        }
        assert("丙午"@ =~= "丙"@ + "午"@);
        "丙午"
    } else if index == 43 {
        proof {
            reveal_strlit("丁未");
            reveal_strlit("丁");
            reveal_strlit("未");
        }
        assert("丁未"@ =~= "丁"@ + "未"@);
        "丁未"
    } else if index == 44 {
        proof {
            reveal_strlit("戊申");
            reveal_strlit("戊");
            reveal_strlit("申");
        }
        assert("戊申"@ =~= "戊"@ + "申"@);
        "戊申"
    } else if index == 45 {
        proof {
            reveal_strlit("己酉");
            reveal_strlit("己");
            reveal_strlit("酉");
        }
        assert("己酉"@ =~= "己"@ + "酉"@);
        "己酉"
    } else if index == 46 {
        proof {
            reveal_strlit("庚戌");
            reveal_strlit("庚");
            reveal_strlit("戌");
        }
        assert("庚戌"@ =~= "庚"@ + "戌"@);
        "庚戌"
    } else if index == 47 {
        proof {
            reveal_strlit("辛亥");
            reveal_strlit("辛");
            reveal_strlit("亥");
        }
        assert("辛亥"@ =~= "辛"@ + "亥"@);
        "辛亥"
    } else if index == 48 {
        proof {
            reveal_strlit("壬子");
            reveal_strlit("壬");
            reveal_strlit("子");
        }
        assert("壬子"@ =~= "壬"@ + "子"@);
        "壬子"
    } else {
        proof {
            reveal_strlit("癸丑");
            reveal_strlit("癸");
            reveal_strlit("丑");
        }
        assert("癸丑"@ =~= "癸"@ + "丑"@);
        "癸丑"
    }
}

/// The written names of places 50 to 59 of the cycle.
fn decade_5_name(index: usize) -> (s: &'static str)
    requires
        50 <= index < 60,
    ensures
        s@ == GanZhi::name_at(index as nat),
{
    if index == 50 {
        proof {
            reveal_strlit("甲寅");
            reveal_strlit("甲");
            reveal_strlit("寅");
        }
        assert("甲寅"@ =~= "甲"@ + "寅"@);
        "甲寅"
    } else if index == 51 {
        proof {
            reveal_strlit("乙卯");
            reveal_strlit("乙");
            reveal_strlit("卯");
        }
        assert("乙卯"@ =~= "乙"@ + "卯"@);
        "乙卯"
    } else if index == 52 {
        proof {
            reveal_strlit("丙辰");
            reveal_strlit("丙");
            reveal_strlit("辰");
        }
        assert("丙辰"@ =~= "丙"@ + "辰"@);
        "丙辰"
    } else if index == 53 {
        proof {
            reveal_strlit("丁巳");
            reveal_strlit("丁");
            reveal_strlit("巳");
        }
        assert("丁巳"@ =~= "丁"@ + "巳"@);
        "丁巳"
    } else if index == 54 {
        proof {
            reveal_strlit("戊午");
            reveal_strlit("戊");
            reveal_strlit("午");
        }
        assert("戊午"@ =~= "戊"@ + "午"@);
        "戊午"
    } else if index == 55 {
        proof {
            reveal_strlit("己未");
            reveal_strlit("己");
            reveal_strlit("未");
        }
        assert("己未"@ =~= "己"@ + "未"@);
        "己未"
    } else if index == 56 {
        proof {
            reveal_strlit("庚申");
            reveal_strlit("庚");
            reveal_strlit("申");
        }
        assert("庚申"@ =~= "庚"@ + "申"@);
        "庚申"
    } else if index == 57 {
        proof {
            reveal_strlit("辛酉");
            reveal_strlit("辛");
            reveal_strlit("酉");
        }
        assert("辛酉"@ =~= "辛"@ + "酉"@);
        "辛酉"
    } else if index == 58 {
        proof {
            reveal_strlit("壬戌");
            reveal_strlit("壬");
            reveal_strlit("戌");
        }
        assert("壬戌"@ =~= "壬"@ + "戌"@);
        "壬戌"
    } else {
        proof {
            reveal_strlit("癸亥");
            reveal_strlit("癸");
            reveal_strlit("亥");
        }
        assert("癸亥"@ =~= "癸"@ + "亥"@);
        "癸亥"
    }
}

/// The written name of the pair at place `index` of the cycle.
pub fn sixty_name(index: usize) -> (s: &'static str)
    requires
        index < 60,
    ensures
        s@ == GanZhi::name_at(index as nat),
{
    if index < 10 {
        decade_0_name(index)
    } else if index < 20 {
        decade_1_name(index)
    } else if index < 30 {
        decade_2_name(index)
    } else if index < 40 {
        decade_3_name(index)
    } else if index < 50 {
        decade_4_name(index)
    } else {
        decade_5_name(index)
    }
}

} // verus!
