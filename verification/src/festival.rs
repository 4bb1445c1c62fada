//! The festivals of fixed date of the civil calendar, and the table of the
//! festivals of the lunar calendar.

use vstd::prelude::*;
use crate::culture::index_of;
use crate::solar::{valid_day, SolarDay};

verus! {

/// How a festival is fixed.
#[derive(Clone, Copy, Debug, PartialEq, Eq, Structural)]
pub enum FestivalType {
    /// By a day of a month.
    DAY,
    /// By a solar term.
    TERM,
    /// As the eve of the new year.
    EVE,
}

/// One festival of the civil calendar.
#[derive(Clone, Copy, Debug, PartialEq, Eq, Structural)]
pub struct SolarFestivalEntry {
    pub index: u8,
    pub festival_type: FestivalType,
    pub month: u8,
    pub day: u8,
    pub start_year: i16,
}

/// How a festival of the lunar calendar is fixed.
#[derive(Clone, Copy, Debug, PartialEq, Eq, Structural)]
pub enum LunarFestivalVariant {
    /// On a day of a lunar month.
    Fixed { month: i8, day: u8 },
    /// On the day of a solar term.
    SolarTerm { term_index: u8 },
    /// On the last day of the lunar year.
    NewYearEve,
}

/// One festival of the lunar calendar.
#[derive(Clone, Copy, Debug, PartialEq, Eq, Structural)]
pub struct LunarFestivalEntry {
    pub index: u8,
    pub variant: LunarFestivalVariant,
}

/// A festival of the civil calendar in a year in which it is kept.
#[derive(Clone, Copy, Debug, PartialEq, Eq, Structural)]
pub struct SolarFestival {
    festival_type: FestivalType,
    day: SolarDay,
    index: usize,
    start_year: isize,
}

/// The festivals of the civil calendar, each with its day and the year from
/// which it is kept.
pub open spec fn solar_festival_entries() -> Seq<SolarFestivalEntry> {
    seq![
        SolarFestivalEntry { index: 0, festival_type: FestivalType::DAY, month: 1, day: 1, start_year: 1950 },
        SolarFestivalEntry { index: 1, festival_type: FestivalType::DAY, month: 3, day: 8, start_year: 1950 },
        SolarFestivalEntry { index: 2, festival_type: FestivalType::DAY, month: 3, day: 12, start_year: 1979 },
        SolarFestivalEntry { index: 3, festival_type: FestivalType::DAY, month: 5, day: 1, start_year: 1950 },
        SolarFestivalEntry { index: 4, festival_type: FestivalType::DAY, month: 5, day: 4, start_year: 1950 },
        SolarFestivalEntry { index: 5, festival_type: FestivalType::DAY, month: 6, day: 1, start_year: 1950 },
        SolarFestivalEntry { index: 6, festival_type: FestivalType::DAY, month: 7, day: 1, start_year: 1941 },
        SolarFestivalEntry { index: 7, festival_type: FestivalType::DAY, month: 8, day: 1, start_year: 1933 },
        SolarFestivalEntry { index: 8, festival_type: FestivalType::DAY, month: 9, day: 10, start_year: 1985 },
        SolarFestivalEntry { index: 9, festival_type: FestivalType::DAY, month: 10, day: 1, start_year: 1950 },
    ]
}

/// The festivals of the lunar calendar.
pub open spec fn lunar_festival_entries() -> Seq<LunarFestivalEntry> {
    seq![
        LunarFestivalEntry { index: 0, variant: LunarFestivalVariant::Fixed { month: 1, day: 1 } },
        LunarFestivalEntry { index: 1, variant: LunarFestivalVariant::Fixed { month: 1, day: 15 } },
        LunarFestivalEntry { index: 2, variant: LunarFestivalVariant::Fixed { month: 2, day: 2 } },
        LunarFestivalEntry { index: 3, variant: LunarFestivalVariant::Fixed { month: 3, day: 3 } },
        LunarFestivalEntry { index: 4, variant: LunarFestivalVariant::SolarTerm { term_index: 7 } },
        LunarFestivalEntry { index: 5, variant: LunarFestivalVariant::Fixed { month: 5, day: 5 } },
        LunarFestivalEntry { index: 6, variant: LunarFestivalVariant::Fixed { month: 7, day: 7 } },
        LunarFestivalEntry { index: 7, variant: LunarFestivalVariant::Fixed { month: 7, day: 15 } },
        LunarFestivalEntry { index: 8, variant: LunarFestivalVariant::Fixed { month: 8, day: 15 } },
        LunarFestivalEntry { index: 9, variant: LunarFestivalVariant::Fixed { month: 9, day: 9 } },
        LunarFestivalEntry { index: 10, variant: LunarFestivalVariant::SolarTerm { term_index: 24 } },
        LunarFestivalEntry { index: 11, variant: LunarFestivalVariant::Fixed { month: 12, day: 8 } },
        LunarFestivalEntry { index: 12, variant: LunarFestivalVariant::NewYearEve },
    ]
}

/// The name of a festival of the civil calendar.
pub open spec fn solar_festival_name_text(index: int) -> Seq<char> {
    if index == 0 {
        "元旦"@
    } else if index == 1 {
        "三八妇女节"@
    } else if index == 2 {
        "植树节"@
    } else if index == 3 {
        "五一劳动节"@
    } else if index == 4 {
        "五四青年节"@
    } else if index == 5 {
        "六一儿童节"@
    } else if index == 6 {
        "建党节"@
    } else if index == 7 {
        "八一建军节"@
    } else if index == 8 {
        "教师节"@
    } else {
        "国庆节"@
    }
}

/// The name of a festival of the lunar calendar.
pub open spec fn lunar_festival_name_text(index: int) -> Seq<char> {
    if index == 0 {
        "春节"@
    } else if index == 1 {
        "元宵节"@
    } else if index == 2 {
        "龙头节"@
    } else if index == 3 {
        "上巳节"@
    } else if index == 4 {
        "清明节"@
    } else if index == 5 {
        "端午节"@
    } else if index == 6 {
        "七夕节"@
    } else if index == 7 {
        "中元节"@
    } else if index == 8 {
        "中秋节"@
    } else if index == 9 {
        "重阳节"@
    } else if index == 10 {
        "冬至节"@
    } else if index == 11 {
        "腊八节"@
    } else {
        "除夕"@
    }
}

/// The name of a festival of the civil calendar.
pub fn solar_festival_name(index: usize) -> (s: &'static str)
    requires
        index < 10,
    ensures
        s@ == solar_festival_name_text(index as int),
{
    if index == 0 {
        "元旦"
    } else if index == 1 {
        "三八妇女节"
    } else if index == 2 {
        "植树节"
    } else if index == 3 {
        "五一劳动节"
    } else if index == 4 {
        "五四青年节"
    } else if index == 5 {
        "六一儿童节"
    } else if index == 6 {
        "建党节"
    } else if index == 7 {
        "八一建军节"
    } else if index == 8 {
        "教师节"
    } else {
        "国庆节"
    }
}

/// The name of a festival of the lunar calendar.
pub fn lunar_festival_name(index: usize) -> (s: &'static str)
    requires
        index < 13,
    ensures
        s@ == lunar_festival_name_text(index as int),
{
    if index == 0 {
        "春节"
    } else if index == 1 {
        "元宵节"
    } else if index == 2 {
        "龙头节"
    } else if index == 3 {
        "上巳节"
    } else if index == 4 {
        "清明节"
    } else if index == 5 {
        "端午节"
    } else if index == 6 {
        "七夕节"
    } else if index == 7 {
        "中元节"
    } else if index == 8 {
        "中秋节"
    } else if index == 9 {
        "重阳节"
    } else if index == 10 {
        "冬至节"
    } else if index == 11 {
        "腊八节"
    } else {
        "除夕"
    }
}

/// The table of the festivals of the civil calendar.
pub fn solar_festival_table() -> (table: [SolarFestivalEntry; 10])
    ensures
        table@ == solar_festival_entries(),
{
    let table = [
        SolarFestivalEntry { index: 0, festival_type: FestivalType::DAY, month: 1, day: 1, start_year: 1950 },
        SolarFestivalEntry { index: 1, festival_type: FestivalType::DAY, month: 3, day: 8, start_year: 1950 },
        SolarFestivalEntry { index: 2, festival_type: FestivalType::DAY, month: 3, day: 12, start_year: 1979 },
        SolarFestivalEntry { index: 3, festival_type: FestivalType::DAY, month: 5, day: 1, start_year: 1950 },
        SolarFestivalEntry { index: 4, festival_type: FestivalType::DAY, month: 5, day: 4, start_year: 1950 },
        SolarFestivalEntry { index: 5, festival_type: FestivalType::DAY, month: 6, day: 1, start_year: 1950 },
        SolarFestivalEntry { index: 6, festival_type: FestivalType::DAY, month: 7, day: 1, start_year: 1941 },
        SolarFestivalEntry { index: 7, festival_type: FestivalType::DAY, month: 8, day: 1, start_year: 1933 },
        SolarFestivalEntry { index: 8, festival_type: FestivalType::DAY, month: 9, day: 10, start_year: 1985 },
        SolarFestivalEntry { index: 9, festival_type: FestivalType::DAY, month: 10, day: 1, start_year: 1950 },
    ];
    assert(table@ =~= solar_festival_entries());
    table
}

/// The table of the festivals of the lunar calendar.
pub fn lunar_festival_table() -> (table: [LunarFestivalEntry; 13])
    ensures
        table@ == lunar_festival_entries(),
{
    let table = [
        LunarFestivalEntry { index: 0, variant: LunarFestivalVariant::Fixed { month: 1, day: 1 } },
        LunarFestivalEntry { index: 1, variant: LunarFestivalVariant::Fixed { month: 1, day: 15 } },
        LunarFestivalEntry { index: 2, variant: LunarFestivalVariant::Fixed { month: 2, day: 2 } },
        LunarFestivalEntry { index: 3, variant: LunarFestivalVariant::Fixed { month: 3, day: 3 } },
        LunarFestivalEntry { index: 4, variant: LunarFestivalVariant::SolarTerm { term_index: 7 } },
        LunarFestivalEntry { index: 5, variant: LunarFestivalVariant::Fixed { month: 5, day: 5 } },
        LunarFestivalEntry { index: 6, variant: LunarFestivalVariant::Fixed { month: 7, day: 7 } },
        LunarFestivalEntry { index: 7, variant: LunarFestivalVariant::Fixed { month: 7, day: 15 } },
        LunarFestivalEntry { index: 8, variant: LunarFestivalVariant::Fixed { month: 8, day: 15 } },
        LunarFestivalEntry { index: 9, variant: LunarFestivalVariant::Fixed { month: 9, day: 9 } },
        LunarFestivalEntry { index: 10, variant: LunarFestivalVariant::SolarTerm { term_index: 24 } },
        LunarFestivalEntry { index: 11, variant: LunarFestivalVariant::Fixed { month: 12, day: 8 } },
        LunarFestivalEntry { index: 12, variant: LunarFestivalVariant::NewYearEve },
    ];
    assert(table@ =~= lunar_festival_entries());
    table
}

/// Whether festival `i` falls on the given day of the given month and is kept
/// in `year`.
pub open spec fn festival_on(i: int, year: int, month: int, day: int) -> bool {
    &&& 0 <= i < 10
    &&& solar_festival_entries()[i].month == month
    &&& solar_festival_entries()[i].day == day
    &&& year >= solar_festival_entries()[i].start_year
}

/// The first festival from `from` on that falls on the given day and is kept
/// in `year`, or 10 if there is none.
pub open spec fn first_festival_on(year: int, month: int, day: int, from: int) -> int
    decreases 10 - from,
{
    if from < 0 || from >= 10 {
        10
    } else if festival_on(from, year, month, day) {
        from
    } else {
        first_festival_on(year, month, day, from + 1)
    }
}

/// Every festival of the table falls on a day that every year from its first
/// has.
pub proof fn lemma_festival_days_exist(i: int, year: int)
    requires
        0 <= i < 10,
        solar_festival_entries()[i].start_year <= year <= 9999,
    ensures
        valid_day(
            year,
            solar_festival_entries()[i].month as int,
            solar_festival_entries()[i].day as int,
        ),
{
}

impl SolarFestival {
    /// The place of the festival in the table.
    pub closed spec fn index(&self) -> int {
        self.index as int
    }

    /// The day of the festival.
    pub closed spec fn day(&self) -> SolarDay {
        self.day
    }

    /// The festival is one of the table, on its day, in a year in which it is
    /// kept.
    pub closed spec fn wf(&self) -> bool {
        &&& self.index < 10
        &&& self.day.wf()
        &&& self.festival_type == solar_festival_entries()[self.index as int].festival_type
        &&& self.start_year == solar_festival_entries()[self.index as int].start_year
        &&& self.day.month() == solar_festival_entries()[self.index as int].month
        &&& self.day.day() == solar_festival_entries()[self.index as int].day
        &&& self.start_year <= self.day.year()
    }

    /// What well-formedness says, for callers.
    pub proof fn lemma_wf(&self)
        requires
            self.wf(),
        ensures
            0 <= self.index() < 10,
            self.day().wf(),
            festival_on(self.index(), self.day().year(), self.day().month(), self.day().day()),
    {
    }

    /// The written form of a festival: its day, a space, its name.
    pub open spec fn text_of(index: int, year: int, month: int, day: int) -> Seq<char> {
        SolarDay::name_of(year, month, day) + " "@ + solar_festival_name_text(index)
    }

    /// The festival that falls on the given day, if there is one and it is
    /// kept in that year: the first of the table that does.
    pub fn from_ymd(year: isize, month: usize, day: usize) -> (r: Option<Self>)
        requires
            year <= 9999,
        ensures
            r is Some <==> first_festival_on(year as int, month as int, day as int, 0) < 10,
            r is Some ==> {
                &&& r->0.wf()
                &&& r->0.index() == first_festival_on(year as int, month as int, day as int, 0)
                &&& r->0.day().year() == year
                &&& r->0.day().month() == month
                &&& r->0.day().day() == day
            },
    {
        let table = solar_festival_table();
        let mut i: usize = 0;
        while i < 10
            invariant
                i <= 10,
                year <= 9999,
                table@ == solar_festival_entries(),
                first_festival_on(year as int, month as int, day as int, 0) == first_festival_on(
                    year as int,
                    month as int,
                    day as int,
                    i as int,
                ),
            decreases 10 - i,
        {
            let entry = table[i];
            if entry.month as usize == month && entry.day as usize == day && year
                >= entry.start_year as isize {
                proof {
                    lemma_festival_days_exist(i as int, year as int);
                }
                return Some(
                    Self {
                        festival_type: entry.festival_type,
                        day: SolarDay::from_ymd(year, month, day),
                        index: entry.index as usize,
                        start_year: entry.start_year as isize,
                    },
                );
            }
            i = i + 1;
        }
        None
    }

    /// Festival `index` of the table in `year`, if the table has it and it is
    /// kept in that year.
    pub fn from_index(year: isize, index: usize) -> (r: Option<Self>)
        requires
            year <= 9999,
        ensures
            r is Some <==> (index < 10 && year >= solar_festival_entries()[index as int].start_year),
            r is Some ==> {
                &&& r->0.wf()
                &&& r->0.index() == index
                &&& r->0.day().year() == year
            },
    {
        if index >= 10 {
            return None;
        }
        let table = solar_festival_table();
        let entry = table[index];
        if year < entry.start_year as isize {
            return None;
        }
        proof {
            lemma_festival_days_exist(index as int, year as int);
        }
        Some(
            Self {
                festival_type: entry.festival_type,
                day: SolarDay::from_ymd(year, entry.month as usize, entry.day as usize),
                index: entry.index as usize,
                start_year: entry.start_year as isize,
            },
        )
    }

    /// How the festival is fixed.
    pub fn get_type(&self) -> (t: FestivalType)
        requires
            self.wf(),
        ensures
            t == FestivalType::DAY,
    {
        self.festival_type
    }

    /// The place of the festival in the table.
    pub fn get_index(&self) -> (i: usize)
        ensures
            i == self.index(),
    {
        self.index
    }

    /// The day of the festival.
    pub fn get_day(&self) -> (d: SolarDay)
        ensures
            d == self.day(),
    {
        self.day
    }

    /// The year from which the festival is kept.
    pub fn get_start_year(&self) -> (y: isize)
        requires
            self.wf(),
        ensures
            y == solar_festival_entries()[self.index()].start_year,
    {
        self.start_year
    }

    /// The name of the festival.
    pub fn get_name(&self) -> (s: String)
        requires
            self.wf(),
        ensures
            s@ == solar_festival_name_text(self.index()),
    {
        String::from_str(solar_festival_name(self.index))
    }

    /// The festival `n` festivals on in the order of the table, which runs
    /// from year to year; none where that festival was not yet kept or lies
    /// before year 0.
    pub fn next(&self, n: isize) -> (r: Option<Self>)
        requires
            self.wf(),
            -1_000_000_000 <= n,
            self.day().year() * 10 + self.index() + n < 100_000,
        ensures
            ({
                let total = self.day().year() * 10 + self.index() + n;
                &&& r is Some <==> (total >= 0 && total / 10 >= solar_festival_entries()[total
                    % 10].start_year)
                &&& r is Some ==> {
                    &&& r->0.wf()
                    &&& r->0.index() == total % 10
                    &&& r->0.day().year() == total / 10
                }
            }),
    {
        let size: isize = 10;
        let i: isize = self.index as isize + n;
        let total: isize = self.day.get_year() * size + i;
        proof {
            let y10 = self.day().year() * 10;
            assert((y10 + i) % 10 == i % 10) by {
                vstd::arithmetic::div_mod::lemma_mod_multiples_vanish(
                    self.day().year(),
                    i as int,
                    10,
                );
            }
        }
        Self::from_index(total / size, index_of(i, 10))
    }

    /// The written form of the festival.
    pub fn to_string(&self) -> (s: String)
        requires
            self.wf(),
        ensures
            s@ == Self::text_of(
                self.index(),
                self.day().year(),
                self.day().month(),
                self.day().day(),
            ),
    {
        let mut s: String = self.day.to_string();
        s.append(" ");
        s.append(solar_festival_name(self.index));
        s
    }
}

impl SolarDay {
    /// The festival that falls on the day, if there is one.
    pub fn get_festival(&self) -> (r: Option<SolarFestival>)
        requires
            self.wf(),
        ensures
            r is Some <==> first_festival_on(self.year(), self.month(), self.day(), 0) < 10,
            r is Some ==> r->0.wf() && r->0.day() == *self && r->0.index() == first_festival_on(
                self.year(),
                self.month(),
                self.day(),
                0,
            ),
    {
        let r = SolarFestival::from_ymd(self.get_year(), self.get_month(), self.get_day());
        proof {
            if r is Some {
                lemma_same_day(r->0.day(), *self);
            }
        }
        r
    }
}

/// Two days with the same year, month and number are the same day.
pub proof fn lemma_same_day(a: SolarDay, b: SolarDay)
    requires
        a.year() == b.year(),
        a.month() == b.month(),
        a.day() == b.day(),
    ensures
        a == b,
{
    SolarDay::lemma_parts_decide(a, b);
}

} // verus!
