//! The ten heavenly stems, the twelve earthly branches and the cycle of
//! sixty that they make together, as places in their cycles.

use vstd::prelude::*;
use crate::culture::{index_after, index_of, same_text, Element, Zodiac};

verus! {

/// One of the ten heavenly stems.
#[derive(Clone, Copy, Debug, PartialEq, Eq, Structural)]
pub struct HeavenStem {
    index: usize,
}

impl HeavenStem {
    /// The place of the stem in its cycle, below 10.
    pub closed spec fn view(&self) -> nat {
        self.index as nat
    }

    /// The stem holds a place of its cycle.
    pub closed spec fn wf(&self) -> bool {
        self.index < 10
    }

    /// The written name of the stem at place `i`.
    pub open spec fn name_at(i: nat) -> Seq<char> {
        if i == 0 {
            "甲"@
        } else if i == 1 {
            "乙"@
        } else if i == 2 {
            "丙"@
        } else if i == 3 {
            "丁"@
        } else if i == 4 {
            "戊"@
        } else if i == 5 {
            "己"@
        } else if i == 6 {
            "庚"@
        } else if i == 7 {
            "辛"@
        } else if i == 8 {
            "壬"@
        } else {
            "癸"@
        }
    }

    /// Whether `name` is the written name of a stem.
    pub open spec fn is_name(name: Seq<char>) -> bool {
        exists|i: nat| i < 10 && #[trigger] Self::name_at(i) == name
    }

    /// The stem at place `index`, counted round the cycle in either
    /// direction.
    pub fn from_index(index: isize) -> (r: Self)
        ensures
            r.wf(),
            r@ == index as int % 10,
    {
        Self { index: index_of(index, 10) }
    }

    /// The stem of the given written name.
    pub fn from_name(name: &str) -> (r: Self)
        requires
            Self::is_name(name@),
        ensures
            r.wf(),
            Self::name_at(r@) == name@,
    {
        let mut i: usize = 0;
        while i < 9
            invariant
                i <= 9,
                Self::is_name(name@),
                forall|k: nat| k < i ==> Self::name_at(k) != name@,
            decreases 9 - i,
        {
            if same_text(Self::name_of(i), name) {
                return Self { index: i };
            }
            i = i + 1;
        }
        Self { index: 9 }
    }

    /// The written name of the stem at place `i`.
    pub fn name_of(i: usize) -> (s: &'static str)
        requires
            i < 10,
        ensures
            s@ == Self::name_at(i as nat),
    {
        if i == 0 {
            "甲"
        } else if i == 1 {
            "乙"
        } else if i == 2 {
            "丙"
        } else if i == 3 {
            "丁"
        } else if i == 4 {
            "戊"
        } else if i == 5 {
            "己"
        } else if i == 6 {
            "庚"
        } else if i == 7 {
            "辛"
        } else if i == 8 {
            "壬"
        } else {
            "癸"
        }
    }

    /// The written name of the stem.
    pub fn get_name(&self) -> (s: String)
        requires
            self.wf(),
        ensures
            s@ == Self::name_at(self@),
    {
        String::from_str(Self::name_of(self.index))
    }

    /// The place of the stem in its cycle.
    pub fn get_index(&self) -> (i: usize)
        requires
            self.wf(),
        ensures
            i == self@,
            i < 10,
    {
        self.index
    }

    /// The length of the cycle.
    pub fn get_size(&self) -> (n: usize)
        ensures
            n == 10,
    {
        10
    }

    /// The stem `n` places on, counted round the cycle; back for a
    /// negative `n`.
    pub fn next(&self, n: isize) -> (r: Self)
        requires
            self.wf(),
        ensures
            r.wf(),
            r@ == (self@ + n) % 10,
    {
        Self { index: index_after(self.index, n, 10) }
    }

    /// The element of the stem: one element for every two stems.
    pub fn get_element(&self) -> (e: Element)
        requires
            self.wf(),
        ensures
            e.wf(),
            e@ == self@ / 2,
    {
        Element::from_index((self.index / 2) as isize)
    }
}

/// One of the twelve earthly branches.
#[derive(Clone, Copy, Debug, PartialEq, Eq, Structural)]
pub struct EarthBranch {
    index: usize,
}

impl EarthBranch {
    /// The place of the branch in its cycle, below 12.
    pub closed spec fn view(&self) -> nat {
        self.index as nat
    }

    /// The branch holds a place of its cycle.
    pub closed spec fn wf(&self) -> bool {
        self.index < 12
    }

    /// The written name of the branch at place `i`.
    pub open spec fn name_at(i: nat) -> Seq<char> {
        if i == 0 {
            "子"@
        } else if i == 1 {
            "丑"@
        } else if i == 2 {
            "寅"@
        } else if i == 3 {
            "卯"@
        } else if i == 4 {
            "辰"@
        } else if i == 5 {
            "巳"@
        } else if i == 6 {
            "午"@
        } else if i == 7 {
            "未"@
        } else if i == 8 {
            "申"@
        } else if i == 9 {
            "酉"@
        } else if i == 10 {
            "戌"@
        } else {
            "亥"@
        }
    }

    /// Whether `name` is the written name of a branch.
    pub open spec fn is_name(name: Seq<char>) -> bool {
        exists|i: nat| i < 12 && #[trigger] Self::name_at(i) == name
    }

    /// The branch at place `index`, counted round the cycle in either
    /// direction.
    pub fn from_index(index: isize) -> (r: Self)
        ensures
            r.wf(),
            r@ == index as int % 12,
    {
        Self { index: index_of(index, 12) }
    }

    /// The branch of the given written name.
    pub fn from_name(name: &str) -> (r: Self)
        requires
            Self::is_name(name@),
        ensures
            r.wf(),
            Self::name_at(r@) == name@,
    {
        let mut i: usize = 0;
        while i < 11
            invariant
                i <= 11,
                Self::is_name(name@),
                forall|k: nat| k < i ==> Self::name_at(k) != name@,
            decreases 11 - i,
        {
            if same_text(Self::name_of(i), name) {
                return Self { index: i };
            }
            i = i + 1;
        }
        Self { index: 11 }
    }

    /// The written name of the branch at place `i`.
    pub fn name_of(i: usize) -> (s: &'static str)
        requires
            i < 12,
        ensures
            s@ == Self::name_at(i as nat),
    {
        if i == 0 {
            "子"
        } else if i == 1 {
            "丑"
        } else if i == 2 {
            "寅"
        } else if i == 3 {
            "卯"
        } else if i == 4 {
            "辰"
        } else if i == 5 {
            "巳"
        } else if i == 6 {
            "午"
        } else if i == 7 {
            "未"
        } else if i == 8 {
            "申"
        } else if i == 9 {
            "酉"
        } else if i == 10 {
            "戌"
        } else {
            "亥"
        }
    }

    /// The written name of the branch.
    pub fn get_name(&self) -> (s: String)
        requires
            self.wf(),
        ensures
            s@ == Self::name_at(self@),
    {
        String::from_str(Self::name_of(self.index))
    }

    /// The place of the branch in its cycle.
    pub fn get_index(&self) -> (i: usize)
        requires
            self.wf(),
        ensures
            i == self@,
            i < 12,
    {
        self.index
    }

    /// The length of the cycle.
    pub fn get_size(&self) -> (n: usize)
        ensures
            n == 12,
    {
        12
    }

    /// The branch `n` places on, counted round the cycle; back for a
    /// negative `n`.
    pub fn next(&self, n: isize) -> (r: Self)
        requires
            self.wf(),
        ensures
            r.wf(),
            r@ == (self@ + n) % 12,
    {
        Self { index: index_after(self.index, n, 12) }
    }

    /// The animal of the branch: the one at the same place of its cycle.
    pub fn get_zodiac(&self) -> (z: Zodiac)
        requires
            self.wf(),
        ensures
            z.wf(),
            z@ == self@,
    {
        Zodiac::from_index(self.index as isize)
    }
}

/// One of the sixty pairs of a stem and a branch.
#[derive(Clone, Copy, Debug, PartialEq, Eq, Structural)]
pub struct SixtyCycle {
    index: usize,
}

impl SixtyCycle {
    /// The place of the pair in the cycle, below 60.
    pub closed spec fn view(&self) -> nat {
        self.index as nat
    }

    /// The pair holds a place of the cycle.
    pub closed spec fn wf(&self) -> bool {
        self.index < 60
    }

    /// The written name of the pair at place `i`: its stem, then its branch.
    pub open spec fn name_at(i: nat) -> Seq<char> {
        HeavenStem::name_at(i % 10) + EarthBranch::name_at(i % 12)
    }

    /// The pair at place `index`, counted round the cycle in either direction.
    pub fn from_index(index: isize) -> (r: Self)
        ensures
            r.wf(),
            r@ == index as int % 60,
    {
        Self { index: index_of(index, 60) }
    }

    /// The place of the pair in the cycle.
    pub fn get_index(&self) -> (i: usize)
        requires
            self.wf(),
        ensures
            i == self@,
            i < 60,
    {
        self.index
    }

    /// The stem of the pair.
    pub fn get_heaven_stem(&self) -> (s: HeavenStem)
        requires
            self.wf(),
        ensures
            s.wf(),
            s@ == self@ % 10,
    {
        HeavenStem::from_index((self.index % 10) as isize)
    }

    /// The branch of the pair.
    pub fn get_earth_branch(&self) -> (b: EarthBranch)
        requires
            self.wf(),
        ensures
            b.wf(),
            b@ == self@ % 12,
    {
        EarthBranch::from_index((self.index % 12) as isize)
    }

    /// The written name of the pair.
    pub fn get_name(&self) -> (s: String)
        requires
            self.wf(),
        ensures
            s@ == Self::name_at(self@),
    {
        let stem = self.get_heaven_stem();
        let branch = self.get_earth_branch();
        stem.get_name().concat(EarthBranch::name_of(branch.get_index()))
    }

    /// The pair `n` places on, counted round the cycle.
    pub fn next(&self, n: isize) -> (r: Self)
        requires
            self.wf(),
        ensures
            r.wf(),
            r@ == (self@ + n) % 60,
    {
        Self { index: index_after(self.index, n, 60) }
    }
}

} // verus!
