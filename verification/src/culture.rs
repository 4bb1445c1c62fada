//! The named cycles of the calendar's culture: the five elements, the nine
//! directions and the twelve animals.

use vstd::prelude::*;
use crate::arith::floor_mod;

verus! {

/// The place that `index` comes to in a cycle of `size` places, counted round
/// in either direction.
pub fn index_of(index: isize, size: usize) -> (place: usize)
    requires
        0 < size <= 1000,
    ensures
        place == index as int % size as int,
        place < size,
{
    floor_mod(index as i64, size as i64) as usize
}

/// The place `n` places after `index` in a cycle of `size` places.
pub fn index_after(index: usize, n: isize, size: usize) -> (place: usize)
    requires
        0 < size <= 1000,
        index < size,
    ensures
        place == (index + n) % size as int,
        place < size,
{
    let step: i64 = floor_mod(n as i64, size as i64);
    proof {
        vstd::arithmetic::div_mod::lemma_add_mod_noop_right(index as int, n as int, size as int);
    }
    ((index as i64 + step) % (size as i64)) as usize
}

/// Whether two strings hold the same characters.
pub fn same_text(a: &str, b: &str) -> (same: bool)
    ensures
        same == (a@ == b@),
{
    let left: String = String::from_str(a);
    let right: String = String::from_str(b);
    left == right
}

/// The place among the directions of the element at place `element`.
pub open spec fn element_direction(element: nat) -> nat {
    if element == 0 {
        2
    } else if element == 1 {
        8
    } else if element == 2 {
        4
    } else if element == 3 {
        6
    } else {
        0
    }
}

/// One of the nine directions.
#[derive(Clone, Copy, Debug, PartialEq, Eq, Structural)]
pub struct Direction {
    index: usize,
}

impl Direction {
    /// The place of the direction in its cycle, below 9.
    pub closed spec fn view(&self) -> nat {
        self.index as nat
    }

    /// The direction holds a place of its cycle.
    pub closed spec fn wf(&self) -> bool {
        self.index < 9
    }

    /// The written name of the direction at place `i`.
    pub open spec fn name_at(i: nat) -> Seq<char> {
        if i == 0 {
            "北"@
        } else if i == 1 {
            "西南"@
        } else if i == 2 {
            "东"@
        } else if i == 3 {
            "东南"@
        } else if i == 4 {
            "中"@
        } else if i == 5 {
            "西北"@
        } else if i == 6 {
            "西"@
        } else if i == 7 {
            "东北"@
        } else {
            "南"@
        }
    }

    /// Whether `name` is the written name of a direction.
    pub open spec fn is_name(name: Seq<char>) -> bool {
        exists|i: nat| i < 9 && #[trigger] Self::name_at(i) == name
    }

    /// The direction at place `index`, counted round the cycle in either
    /// direction.
    pub fn from_index(index: isize) -> (r: Self)
        ensures
            r.wf(),
            r@ == index as int % 9,
    {
        Self { index: index_of(index, 9) }
    }

    /// The direction of the given written name.
    pub fn from_name(name: &str) -> (r: Self)
        requires
            Self::is_name(name@),
        ensures
            r.wf(),
            Self::name_at(r@) == name@,
    {
        let mut i: usize = 0;
        while i < 8
            invariant
                i <= 8,
                Self::is_name(name@),
                forall|k: nat| k < i ==> Self::name_at(k) != name@,
            decreases 8 - i,
        {
            if same_text(Self::name_of(i), name) {
                return Self { index: i };
            }
            i = i + 1;
        }
        Self { index: 8 }
    }

    /// The written name of the direction at place `i`.
    pub fn name_of(i: usize) -> (s: &'static str)
        requires
            i < 9,
        ensures
            s@ == Self::name_at(i as nat),
    {
        if i == 0 {
            "北"
        } else if i == 1 {
            "西南"
        } else if i == 2 {
            "东"
        } else if i == 3 {
            "东南"
        } else if i == 4 {
            "中"
        } else if i == 5 {
            "西北"
        } else if i == 6 {
            "西"
        } else if i == 7 {
            "东北"
        } else {
            "南"
        }
    }

    /// The written name of the direction.
    pub fn get_name(&self) -> (s: String)
        requires
            self.wf(),
        ensures
            s@ == Self::name_at(self@),
    {
        String::from_str(Self::name_of(self.index))
    }

    /// The place of the direction in its cycle.
    pub fn get_index(&self) -> (i: usize)
        requires
            self.wf(),
        ensures
            i == self@,
            i < 9,
    {
        self.index
    }

    /// The length of the cycle.
    pub fn get_size(&self) -> (n: usize)
        ensures
            n == 9,
    {
        9
    }

    /// The direction `n` places on, counted round the cycle; back for a
    /// negative `n`.
    pub fn next(&self, n: isize) -> (r: Self)
        requires
            self.wf(),
        ensures
            r.wf(),
            r@ == (self@ + n) % 9,
    {
        Self { index: index_after(self.index, n, 9) }
    }
}

/// One of the five elements.
#[derive(Clone, Copy, Debug, PartialEq, Eq, Structural)]
pub struct Element {
    index: usize,
}

impl Element {
    /// The place of the element in its cycle, below 5.
    pub closed spec fn view(&self) -> nat {
        self.index as nat
    }

    /// The element holds a place of its cycle.
    pub closed spec fn wf(&self) -> bool {
        self.index < 5
    }

    /// The written name of the element at place `i`.
    pub open spec fn name_at(i: nat) -> Seq<char> {
        if i == 0 {
            "木"@
        } else if i == 1 {
            "火"@
        } else if i == 2 {
            "土"@
        } else if i == 3 {
            "金"@
        } else {
            "水"@
        }
    }

    /// Whether `name` is the written name of a element.
    pub open spec fn is_name(name: Seq<char>) -> bool {
        exists|i: nat| i < 5 && #[trigger] Self::name_at(i) == name
    }

    /// The element at place `index`, counted round the cycle in either
    /// direction.
    pub fn from_index(index: isize) -> (r: Self)
        ensures
            r.wf(),
            r@ == index as int % 5,
    {
        Self { index: index_of(index, 5) }
    }

    /// The element of the given written name.
    pub fn from_name(name: &str) -> (r: Self)
        requires
            Self::is_name(name@),
        ensures
            r.wf(),
            Self::name_at(r@) == name@,
    {
        let mut i: usize = 0;
        while i < 4
            invariant
                i <= 4,
                Self::is_name(name@),
                forall|k: nat| k < i ==> Self::name_at(k) != name@,
            decreases 4 - i,
        {
            if same_text(Self::name_of(i), name) {
                return Self { index: i };
            }
            i = i + 1;
        }
        Self { index: 4 }
    }

    /// The written name of the element at place `i`.
    pub fn name_of(i: usize) -> (s: &'static str)
        requires
            i < 5,
        ensures
            s@ == Self::name_at(i as nat),
    {
        if i == 0 {
            "木"
        } else if i == 1 {
            "火"
        } else if i == 2 {
            "土"
        } else if i == 3 {
            "金"
        } else {
            "水"
        }
    }

    /// The written name of the element.
    pub fn get_name(&self) -> (s: String)
        requires
            self.wf(),
        ensures
            s@ == Self::name_at(self@),
    {
        String::from_str(Self::name_of(self.index))
    }

    /// The place of the element in its cycle.
    pub fn get_index(&self) -> (i: usize)
        requires
            self.wf(),
        ensures
            i == self@,
            i < 5,
    {
        self.index
    }

    /// The length of the cycle.
    pub fn get_size(&self) -> (n: usize)
        ensures
            n == 5,
    {
        5
    }

    /// The element `n` places on, counted round the cycle; back for a
    /// negative `n`.
    pub fn next(&self, n: isize) -> (r: Self)
        requires
            self.wf(),
        ensures
            r.wf(),
            r@ == (self@ + n) % 5,
    {
        Self { index: index_after(self.index, n, 5) }
    }

    /// The element that this one brings forth: the next of the cycle.
    pub fn get_reinforce(&self) -> (r: Self)
        requires
            self.wf(),
        ensures
            r.wf(),
            r@ == (self@ + 1) % 5,
    {
        self.next(1)
    }

    /// The element that this one holds down: the next but one.
    pub fn get_restrain(&self) -> (r: Self)
        requires
            self.wf(),
        ensures
            r.wf(),
            r@ == (self@ + 2) % 5,
    {
        self.next(2)
    }

    /// The element that brings this one forth: the one before.
    pub fn get_reinforced(&self) -> (r: Self)
        requires
            self.wf(),
        ensures
            r.wf(),
            r@ == (self@ - 1) % 5,
    {
        self.next(-1)
    }

    /// The element that holds this one down: the one two before.
    pub fn get_restrained(&self) -> (r: Self)
        requires
            self.wf(),
        ensures
            r.wf(),
            r@ == (self@ - 2) % 5,
    {
        self.next(-2)
    }

    /// The direction of the element: east for wood, south for fire, the
    /// centre for earth, west for metal, north for water.
    pub fn get_direction(&self) -> (d: Direction)
        requires
            self.wf(),
        ensures
            d.wf(),
            d@ == element_direction(self@),
    {
        let places: [isize; 5] = [2, 8, 4, 6, 0];
        Direction::from_index(places[self.index])
    }
}

/// One of the twelve animals.
#[derive(Clone, Copy, Debug, PartialEq, Eq, Structural)]
pub struct Zodiac {
    index: usize,
}

impl Zodiac {
    /// The place of the animal in its cycle, below 12.
    pub closed spec fn view(&self) -> nat {
        self.index as nat
    }

    /// The animal holds a place of its cycle.
    pub closed spec fn wf(&self) -> bool {
        self.index < 12
    }

    /// The written name of the animal at place `i`.
    pub open spec fn name_at(i: nat) -> Seq<char> {
        if i == 0 {
            "鼠"@
        } else if i == 1 {
            "牛"@
        } else if i == 2 {
            "虎"@
        } else if i == 3 {
            "兔"@
        } else if i == 4 {
            "龙"@
        } else if i == 5 {
            "蛇"@
        } else if i == 6 {
            "马"@
        } else if i == 7 {
            "羊"@
        } else if i == 8 {
            "猴"@
        } else if i == 9 {
            "鸡"@
        } else if i == 10 {
            "狗"@
        } else {
            "猪"@
        }
    }

    /// Whether `name` is the written name of a animal.
    pub open spec fn is_name(name: Seq<char>) -> bool {
        exists|i: nat| i < 12 && #[trigger] Self::name_at(i) == name
    }

    /// The animal at place `index`, counted round the cycle in either
    /// direction.
    pub fn from_index(index: isize) -> (r: Self)
        ensures
            r.wf(),
            r@ == index as int % 12,
    {
        Self { index: index_of(index, 12) }
    }

    /// The animal of the given written name.
    pub fn from_name(name: &str) -> (r: Self)
        requires
            Self::is_name(name@),
        ensures
            r.wf(),
            Self::name_at(r@) == name@,
    {
        let mut i: usize = 0;
        while i < 11
            invariant
                i <= 11,
                Self::is_name(name@),
                forall|k: nat| k < i ==> Self::name_at(k) != name@,
            decreases 11 - i,
        {
            if same_text(Self::name_of(i), name) {
                return Self { index: i };
            }
            i = i + 1;
        }
        Self { index: 11 }
    }

    /// The written name of the animal at place `i`.
    pub fn name_of(i: usize) -> (s: &'static str)
        requires
            i < 12,
        ensures
            s@ == Self::name_at(i as nat),
    {
        if i == 0 {
            "鼠"
        } else if i == 1 {
            "牛"
        } else if i == 2 {
            "虎"
        } else if i == 3 {
            "兔"
        } else if i == 4 {
            "龙"
        } else if i == 5 {
            "蛇"
        } else if i == 6 {
            "马"
        } else if i == 7 {
            "羊"
        } else if i == 8 {
            "猴"
        } else if i == 9 {
            "鸡"
        } else if i == 10 {
            "狗"
        } else {
            "猪"
        }
    }

    /// The written name of the animal.
    pub fn get_name(&self) -> (s: String)
        requires
            self.wf(),
        ensures
            s@ == Self::name_at(self@),
    {
        String::from_str(Self::name_of(self.index))
    }

    /// The place of the animal in its cycle.
    pub fn get_index(&self) -> (i: usize)
        requires
            self.wf(),
        ensures
            i == self@,
            i < 12,
    {
        self.index
    }

    /// The length of the cycle.
    pub fn get_size(&self) -> (n: usize)
        ensures
            n == 12,
    {
        12
    }

    /// The animal `n` places on, counted round the cycle; back for a
    /// negative `n`.
    pub fn next(&self, n: isize) -> (r: Self)
        requires
            self.wf(),
        ensures
            r.wf(),
            r@ == (self@ + n) % 12,
    {
        Self { index: index_after(self.index, n, 12) }
    }
}

} // verus!
