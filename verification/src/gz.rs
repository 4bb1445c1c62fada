//! A stem and a branch held as two small numbers.

use vstd::prelude::*;

verus! {

/// A stem and a branch by their places: the stem 0 to 9, the branch 0 to 11.
#[derive(Clone, Copy, Debug, PartialEq, Eq, Structural)]
pub struct GanZhi {
    /// The place of the stem, 0 to 9.
    pub tian_gan: u8,
    /// The place of the branch, 0 to 11.
    pub di_zhi: u8,
}

/// The written name of the stem at place `i`; a word for unknown outside 0 to 9.
pub open spec fn stem_name(i: int) -> Seq<char> {
    if i == 0 {
        "甲"@
    } else if i == 1 {
        "乙"@
    } else if i == 2 {
        "丙"@
    } else if i == 3 {
        "丁"@
    } else if i == 4 {
        "戊"@
    } else if i == 5 {
        "己"@
    } else if i == 6 {
        "庚"@
    } else if i == 7 {
        "辛"@
    } else if i == 8 {
        "壬"@
    } else if i == 9 {
        "癸"@
    } else {
        "未知"@
    }
}

/// The written name of the branch at place `i`; a word for unknown outside 0 to 11.
pub open spec fn branch_name(i: int) -> Seq<char> {
    if i == 0 {
        "子"@
    } else if i == 1 {
        "丑"@
    } else if i == 2 {
        "寅"@
    } else if i == 3 {
        "卯"@
    } else if i == 4 {
        "辰"@
    } else if i == 5 {
        "巳"@
    } else if i == 6 {
        "午"@
    } else if i == 7 {
        "未"@
    } else if i == 8 {
        "申"@
    } else if i == 9 {
        "酉"@
    } else if i == 10 {
        "戌"@
    } else if i == 11 {
        "亥"@
    } else {
        "未知"@
    }
}

/// Whether the places are those of a stem and a branch.
pub open spec fn in_range(tian_gan: int, di_zhi: int) -> bool {
    0 <= tian_gan <= 9 && 0 <= di_zhi <= 11
}

/// Whether a stem and a branch in range stand together in the cycle of sixty:
/// their places are both even or both odd.
pub open spec fn in_cycle(tian_gan: int, di_zhi: int) -> bool {
    in_range(tian_gan, di_zhi) && (tian_gan + di_zhi) % 2 == 0
}

/// The place in the cycle of sixty of a pair that stands in it: the one place
/// below 60 with that stem and that branch.
pub open spec fn cycle_index(tian_gan: int, di_zhi: int) -> int {
    (6 * tian_gan + 55 * di_zhi) % 60
}

/// The place found is below 60 and has the stem and the branch asked for,
/// and it is the only such place.
pub proof fn lemma_cycle_index(tian_gan: int, di_zhi: int, k: int)
    requires
        in_cycle(tian_gan, di_zhi),
    ensures
        0 <= cycle_index(tian_gan, di_zhi) < 60,
        cycle_index(tian_gan, di_zhi) % 10 == tian_gan,
        cycle_index(tian_gan, di_zhi) % 12 == di_zhi,
        0 <= k < 60 && k % 10 == tian_gan && k % 12 == di_zhi ==> k == cycle_index(
            tian_gan,
            di_zhi,
        ),
{
    let c = cycle_index(tian_gan, di_zhi);
    assert(0 <= c < 60 && c % 10 == tian_gan && c % 12 == di_zhi) by (nonlinear_arith)
        requires
            in_cycle(tian_gan, di_zhi),
            c == (6 * tian_gan + 55 * di_zhi) % 60,
    ;
    if 0 <= k < 60 && k % 10 == tian_gan && k % 12 == di_zhi {
        assert(k == c) by (nonlinear_arith)
            requires
                0 <= k < 60,
                0 <= c < 60,
                k % 10 == c % 10,
                k % 12 == c % 12,
        ;
    }
}

/// The place in the cycle of sixty of the pair, or why it has none: the
/// places are out of range, or the two do not stand together in the cycle.
pub fn cycle_index_of(tian_gan: u8, di_zhi: u8) -> (r: Result<u8, &'static str>)
    ensures
        in_cycle(tian_gan as int, di_zhi as int) <==> r is Ok,
        r is Ok ==> r->Ok_0 == cycle_index(tian_gan as int, di_zhi as int),
        !in_range(tian_gan as int, di_zhi as int) ==> r is Err && r->Err_0@ == "无效的天干地支值"@,
        in_range(tian_gan as int, di_zhi as int) && !in_cycle(tian_gan as int, di_zhi as int)
            ==> r is Err && r->Err_0@ == "无法找到对应的干支索引"@,
{
    if tian_gan > 9 || di_zhi > 11 {
        return Err("无效的天干地支值");
    }
    let mut i: u8 = 0;
    while i < 6
        invariant
            i <= 6,
            tian_gan <= 9,
            di_zhi <= 11,
            forall|j: int| 0 <= j < i ==> (tian_gan + #[trigger] (j * 10)) % 12 != di_zhi as int,
        decreases 6 - i,
    {
        if (tian_gan + i * 10) % 12 == di_zhi {
            proof {
                let k = (tian_gan + i * 10) as int;
                assert(k % 10 == tian_gan as int && (tian_gan + di_zhi) % 2 == 0)
                    by (nonlinear_arith)
                    requires
                        k == tian_gan + i * 10,
                        k % 12 == di_zhi as int,
                        0 <= tian_gan <= 9,
                        0 <= i < 6,
                ;
                lemma_cycle_index(tian_gan as int, di_zhi as int, k);
            }
            return Ok(tian_gan + i * 10);
        }
        i = i + 1;
    }
    proof {
        if in_cycle(tian_gan as int, di_zhi as int) {
            let c = cycle_index(tian_gan as int, di_zhi as int);
            lemma_cycle_index(tian_gan as int, di_zhi as int, 0);
            let j = c / 10;
            assert(c == tian_gan + j * 10 && 0 <= j < 6) by (nonlinear_arith)
                requires
                    0 <= c < 60,
                    c % 10 == tian_gan as int,
                    j == c / 10,
            ;
            assert((tian_gan + j * 10) % 12 != di_zhi as int);
        }
    }
    Err("无法找到对应的干支索引")
}

impl GanZhi {
    /// A pair of the given places; refused when a place is out of range.
    pub fn new(tian_gan: u8, di_zhi: u8) -> (r: Result<Self, &'static str>)
        ensures
            in_range(tian_gan as int, di_zhi as int) <==> r is Ok,
            r is Ok ==> r->Ok_0 == (GanZhi { tian_gan, di_zhi }),
            r is Err ==> r->Err_0@ == "天干必须在0-9范围内，地支必须在0-11范围内"@,
    {
        if tian_gan > 9 || di_zhi > 11 {
            return Err("天干必须在0-9范围内，地支必须在0-11范围内");
        }
        Ok(Self { tian_gan, di_zhi })
    }

    /// The place of the pair in the cycle of sixty, 0 to 59, or why it has
    /// none.
    pub fn get_index(&self) -> (r: Result<u8, &'static str>)
        ensures
            in_cycle(self.tian_gan as int, self.di_zhi as int) <==> r is Ok,
            r is Ok ==> r->Ok_0 == cycle_index(self.tian_gan as int, self.di_zhi as int),
            !in_range(self.tian_gan as int, self.di_zhi as int) ==> r is Err && r->Err_0@
                == "无效的天干地支值"@,
            in_range(self.tian_gan as int, self.di_zhi as int) && !in_cycle(
                self.tian_gan as int,
                self.di_zhi as int,
            ) ==> r is Err && r->Err_0@ == "无法找到对应的干支索引"@,
    {
        cycle_index_of(self.tian_gan, self.di_zhi)
    }

    /// The written name of the stem.
    pub fn get_tian_gan_str(&self) -> (s: &'static str)
        ensures
            s@ == stem_name(self.tian_gan as int),
    {
        let i: u8 = self.tian_gan;
        if i == 0 {
            "甲"
        } else if i == 1 {
            "乙"
        } else if i == 2 {
            "丙"
        } else if i == 3 {
            "丁"
        } else if i == 4 {
            "戊"
        } else if i == 5 {
            "己"
        } else if i == 6 {
            "庚"
        } else if i == 7 {
            "辛"
        } else if i == 8 {
            "壬"
        } else if i == 9 {
            "癸"
        } else {
            "未知"
        }
    }

    /// The written name of the branch.
    pub fn get_di_zhi_str(&self) -> (s: &'static str)
        ensures
            s@ == branch_name(self.di_zhi as int),
    {
        let i: u8 = self.di_zhi;
        if i == 0 {
            "子"
        } else if i == 1 {
            "丑"
        } else if i == 2 {
            "寅"
        } else if i == 3 {
            "卯"
        } else if i == 4 {
            "辰"
        } else if i == 5 {
            "巳"
        } else if i == 6 {
            "午"
        } else if i == 7 {
            "未"
        } else if i == 8 {
            "申"
        } else if i == 9 {
            "酉"
        } else if i == 10 {
            "戌"
        } else if i == 11 {
            "亥"
        } else {
            "未知"
        }
    }

    /// The written name of the pair: its stem, then its branch.
    pub fn to_string(&self) -> (s: String)
        ensures
            s@ == stem_name(self.tian_gan as int) + branch_name(self.di_zhi as int),
    {
        let mut s: String = String::from_str(self.get_tian_gan_str());
        s.append(self.get_di_zhi_str());
        s
    }
}

} // verus!
