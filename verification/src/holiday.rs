//! The days off and the days worked in exchange that are decreed around the
//! public holidays, looked up in a table of such days.

use vstd::prelude::*;
use crate::solar::{valid_day, SolarDay};

verus! {

/// One decreed day: its date, whether it is worked, and which holiday it
/// belongs to.
#[derive(Clone, Copy, Debug, PartialEq, Eq, Structural)]
pub struct LegalHolidayEntry {
    pub year: u16,
    pub month: u8,
    pub day: u8,
    pub work: bool,
    pub index: u8,
}

/// A decreed day.
#[derive(Clone, Copy, Debug, PartialEq, Eq, Structural)]
pub struct LegalHoliday {
    day: SolarDay,
    index: usize,
    work: bool,
}

/// The name of a public holiday.
pub open spec fn legal_holiday_name_text(index: int) -> Seq<char> {
    if index == 0 {
        "元旦节"@
    } else if index == 1 {
        "春节"@
    } else if index == 2 {
        "清明节"@
    } else if index == 3 {
        "劳动节"@
    } else if index == 4 {
        "端午节"@
    } else if index == 5 {
        "中秋节"@
    } else if index == 6 {
        "国庆节"@
    } else if index == 7 {
        "国庆中秋"@
    } else {
        "抗战胜利日"@
    }
}

/// The name of a public holiday.
pub fn legal_holiday_name(index: usize) -> (s: &'static str)
    requires
        index < 9,
    ensures
        s@ == legal_holiday_name_text(index as int),
{
    if index == 0 {
        "元旦节"
    } else if index == 1 {
        "春节"
    } else if index == 2 {
        "清明节"
    } else if index == 3 {
        "劳动节"
    } else if index == 4 {
        "端午节"
    } else if index == 5 {
        "中秋节"
    } else if index == 6 {
        "国庆节"
    } else if index == 7 {
        "国庆中秋"
    } else {
        "抗战胜利日"
    }
}

/// Whether every entry of a table is a day of the calendar and belongs to one
/// of the nine holidays.
pub open spec fn valid_holiday_table(table: Seq<LegalHolidayEntry>) -> bool {
    forall|i: int|
        0 <= i < table.len() ==> {
            &&& valid_day(
                (#[trigger] table[i]).year as int,
                table[i].month as int,
                table[i].day as int,
            )
            &&& table[i].index < 9
        }
}

/// Whether an entry is for the given date.
pub open spec fn entry_on(entry: LegalHolidayEntry, year: int, month: int, day: int) -> bool {
    entry.year == year && entry.month == month && entry.day == day
}

/// The place of the first entry from `from` on for the given date, or the
/// length of the table if it has none.
pub open spec fn first_entry_on(
    table: Seq<LegalHolidayEntry>,
    year: int,
    month: int,
    day: int,
    from: int,
) -> int
    decreases table.len() - from,
{
    if from < 0 || from >= table.len() {
        table.len() as int
    } else if entry_on(table[from], year, month, day) {
        from
    } else {
        first_entry_on(table, year, month, day, from + 1)
    }
}

/// The place found is in the table or past its end, and an entry found is for
/// the date.
pub proof fn lemma_first_entry_on(
    table: Seq<LegalHolidayEntry>,
    year: int,
    month: int,
    day: int,
    from: int,
)
    requires
        0 <= from,
    ensures
        from <= first_entry_on(table, year, month, day, from) || first_entry_on(
            table,
            year,
            month,
            day,
            from,
        ) == table.len(),
        first_entry_on(table, year, month, day, from) <= table.len(),
        first_entry_on(table, year, month, day, from) < table.len() ==> entry_on(
            table[first_entry_on(table, year, month, day, from)],
            year,
            month,
            day,
        ),
    decreases table.len() - from,
{
    if from < table.len() && !entry_on(table[from], year, month, day) {
        lemma_first_entry_on(table, year, month, day, from + 1);
    }
}

/// Checks that every entry of a table is a day of the calendar and belongs to
/// one of the nine holidays.
pub fn is_valid_holiday_table(table: &[LegalHolidayEntry]) -> (ok: bool)
    ensures
        ok == valid_holiday_table(table@),
{
    let mut i: usize = 0;
    while i < table.len()
        invariant
            i <= table@.len(),
            valid_holiday_table(table@.subrange(0, i as int)),
        decreases table@.len() - i,
    {
        let entry = table[i];
        if !SolarDay::is_valid(entry.year as isize, entry.month as usize, entry.day as usize)
            || entry.index >= 9 {
            return false;
        }
        proof {
            let before = table@.subrange(0, i as int);
            let after = table@.subrange(0, i as int + 1);
            assert forall|k: int| 0 <= k < after.len() implies {
                &&& valid_day(
                    (#[trigger] after[k]).year as int,
                    after[k].month as int,
                    after[k].day as int,
                )
                &&& after[k].index < 9
            } by {
                if k < i {
                    assert(before[k] == after[k]);
                }
            }
        }
        i = i + 1;
    }
    assert(table@.subrange(0, table@.len() as int) =~= table@);
    true
}

/// The place of the first entry of a table for the given date, or the length
/// of the table if it has none.
pub fn find_entry(table: &[LegalHolidayEntry], year: isize, month: usize, day: usize) -> (i: usize)
    ensures
        i == first_entry_on(table@, year as int, month as int, day as int, 0),
        i <= table@.len(),
{
    let mut i: usize = 0;
    while i < table.len()
        invariant
            i <= table@.len(),
            first_entry_on(table@, year as int, month as int, day as int, 0) == first_entry_on(
                table@,
                year as int,
                month as int,
                day as int,
                i as int,
            ),
        decreases table@.len() - i,
    {
        let entry = table[i];
        if entry.year as isize == year && entry.month as usize == month && entry.day as usize
            == day {
            return i;
        }
        i = i + 1;
    }
    i
}

impl LegalHoliday {
    /// The date of the day.
    pub closed spec fn day(&self) -> SolarDay {
        self.day
    }

    /// The place of the day's holiday among the nine.
    pub closed spec fn index(&self) -> int {
        self.index as int
    }

    /// Whether the day is worked.
    pub closed spec fn work(&self) -> bool {
        self.work
    }

    /// The date is a day of the calendar and the holiday one of the nine.
    pub open spec fn wf(&self) -> bool {
        self.day().wf() && 0 <= self.index() < 9
    }

    /// The day that entry `i` of a table stands for.
    pub open spec fn is_entry(&self, table: Seq<LegalHolidayEntry>, i: int) -> bool {
        &&& 0 <= i < table.len()
        &&& entry_on(table[i], self.day().year(), self.day().month(), self.day().day())
        &&& self.index() == table[i].index
        &&& self.work() == table[i].work
    }

    /// The written form of a decreed day: its date, a space, its holiday, and
    /// in brackets whether it is worked or off.
    pub open spec fn text_of(year: int, month: int, day: int, index: int, work: bool) -> Seq<char> {
        SolarDay::name_of(year, month, day) + " "@ + legal_holiday_name_text(index) + "("@ + (if work {
            "班"@
        } else {
            "休"@
        }) + ")"@
    }

    /// The decreed day of the given date, if `table` has one: the first entry
    /// for the date.
    pub fn from_ymd(table: &[LegalHolidayEntry], year: isize, month: usize, day: usize) -> (r:
        Option<Self>)
        requires
            valid_holiday_table(table@),
        ensures
            r is Some <==> first_entry_on(table@, year as int, month as int, day as int, 0)
                < table@.len(),
            r is Some ==> r->0.wf() && r->0.is_entry(
                table@,
                first_entry_on(table@, year as int, month as int, day as int, 0),
            ),
    {
        let mut i: usize = 0;
        while i < table.len()
            invariant
                i <= table@.len(),
                valid_holiday_table(table@),
                first_entry_on(table@, year as int, month as int, day as int, 0) == first_entry_on(
                    table@,
                    year as int,
                    month as int,
                    day as int,
                    i as int,
                ),
            decreases table@.len() - i,
        {
            let entry = table[i];
            if entry.year as isize == year && entry.month as usize == month && entry.day as usize
                == day {
                return Some(
                    Self {
                        day: SolarDay::from_ymd(year, month, day),
                        index: entry.index as usize,
                        work: entry.work,
                    },
                );
            }
            i = i + 1;
        }
        None
    }

    /// The date of the day.
    pub fn get_day(&self) -> (d: SolarDay)
        ensures
            d == self.day(),
    {
        self.day
    }

    /// Whether the day is worked.
    pub fn is_work(&self) -> (work: bool)
        ensures
            work == self.work(),
    {
        self.work
    }

    /// The place of the day's holiday among the nine.
    pub fn get_index(&self) -> (i: usize)
        ensures
            i == self.index(),
    {
        self.index
    }

    /// The name of the day's holiday.
    pub fn get_name(&self) -> (s: String)
        requires
            self.wf(),
        ensures
            s@ == legal_holiday_name_text(self.index()),
    {
        String::from_str(legal_holiday_name(self.index))
    }

    /// The decreed day `n` entries on in `table`, back for a negative `n`:
    /// the day itself for 0; else the entry `n` places from the first entry
    /// for the day's date, or rather the first entry for that entry's date;
    /// none where the table has no entry for the day's date or ends before.
    pub fn next(&self, n: isize, table: &[LegalHolidayEntry]) -> (r: Option<Self>)
        requires
            self.wf(),
            valid_holiday_table(table@),
        ensures
            n == 0 ==> r == Some(*self),
            n != 0 ==> ({
                let current = first_entry_on(
                    table@,
                    self.day().year(),
                    self.day().month(),
                    self.day().day(),
                    0,
                );
                let target = current + n;
                &&& r is Some <==> (current < table@.len() && 0 <= target < table@.len())
                &&& r is Some ==> r->0.wf() && r->0.is_entry(
                    table@,
                    first_entry_on(
                        table@,
                        table@[target].year as int,
                        table@[target].month as int,
                        table@[target].day as int,
                        0,
                    ),
                )
            }),
    {
        if n == 0 {
            return Some(*self);
        }
        let year: isize = self.day.get_year();
        let month: usize = self.day.get_month();
        let day: usize = self.day.get_day();
        let i: usize = find_entry(table, year, month, day);
        if i >= table.len() {
            return None;
        }
        let target: i128 = i as i128 + n as i128;
        if target < 0 || target >= table.len() as i128 {
            return None;
        }
        let target_entry = table[target as usize];
        let r = Self::from_ymd(
            table,
            target_entry.year as isize,
            target_entry.month as usize,
            target_entry.day as usize,
        );
        proof {
            lemma_entry_is_found(table@, target as int, 0);
        }
        r
    }

    /// The written form of the day.
    pub fn to_string(&self) -> (s: String)
        requires
            self.wf(),
        ensures
            s@ == Self::text_of(
                self.day().year(),
                self.day().month(),
                self.day().day(),
                self.index(),
                self.work(),
            ),
    {
        let mut s: String = self.day.to_string();
        s.append(" ");
        s.append(legal_holiday_name(self.index));
        s.append("(");
        if self.work {
            s.append("班");
        } else {
            s.append("休");
        }
        s.append(")");
        s
    }
}

/// The date of an entry of the table is found in the table, at the entry or
/// before it.
pub proof fn lemma_entry_is_found(table: Seq<LegalHolidayEntry>, i: int, from: int)
    requires
        0 <= from <= i < table.len(),
    ensures
        first_entry_on(
            table,
            table[i].year as int,
            table[i].month as int,
            table[i].day as int,
            from,
        ) <= i,
    decreases i - from,
{
    if from < i && !entry_on(
        table[from],
        table[i].year as int,
        table[i].month as int,
        table[i].day as int,
    ) {
        lemma_entry_is_found(table, i, from + 1);
    }
}

} // verus!
