//! The Tibetan calendar: its elements, and its years in cycles of sixty
//! counted from 1027.

use vstd::prelude::*;
use crate::culture::{same_text, Direction, Element, Zodiac};
use crate::sixtycycle::SixtyCycle;
use crate::solar::{day_number, valid_year, SolarDay, SolarYear};
use crate::text::{append_decimal, append_signed_decimal, decimal_text, signed_decimal_text};

verus! {

/// One of the five elements under its Tibetan name: iron stands for metal.
#[derive(Clone, Copy, Debug, PartialEq, Eq, Structural)]
pub struct RabByungElement {
    parent: Element,
}

/// A year of the Tibetan calendar: a cycle of sixty years by its number, and
/// the year's pair of stem and branch within it.
#[derive(Clone, Copy, Debug, PartialEq, Eq, Structural)]
pub struct RabByungYear {
    rab_byung_index: usize,
    sixty_cycle: SixtyCycle,
}

/// The largest number that a cycle of sixty years can have.
pub const MAX_RAB_BYUNG_INDEX: isize = 150;

impl RabByungElement {
    /// The place of the element among the five.
    pub closed spec fn view(&self) -> nat {
        self.parent@
    }

    /// The element holds a place among the five.
    pub closed spec fn wf(&self) -> bool {
        self.parent.wf()
    }

    /// The Tibetan name of the element at place `i`: that of the element,
    /// with iron for metal.
    pub open spec fn name_at(i: nat) -> Seq<char> {
        if i == 3 {
            "铁"@
        } else {
            Element::name_at(i)
        }
    }

    /// Whether `name` names an element, under its Tibetan name or its own.
    pub open spec fn is_name(name: Seq<char>) -> bool {
        name == "铁"@ || Element::is_name(name)
    }

    /// The element at place `index`, counted round the five in either
    /// direction.
    pub fn from_index(index: isize) -> (r: Self)
        ensures
            r.wf(),
            r@ == index as int % 5,
    {
        Self { parent: Element::from_index(index) }
    }

    /// The element of the given name.
    pub fn from_name(name: &str) -> (r: Self)
        requires
            Self::is_name(name@),
        ensures
            r.wf(),
            name@ == "铁"@ ==> r@ == 3,
            name@ != "铁"@ ==> Element::name_at(r@) == name@,
    {
        if same_text(name, "铁") {
            Self { parent: Element::from_index(3) }
        } else {
            Self { parent: Element::from_name(name) }
        }
    }

    /// The place of the element among the five.
    pub fn get_index(&self) -> (i: usize)
        requires
            self.wf(),
        ensures
            i == self@,
            i < 5,
    {
        self.parent.get_index()
    }

    /// The number of elements.
    pub fn get_size(&self) -> (n: usize)
        ensures
            n == 5,
    {
        self.parent.get_size()
    }

    /// The Tibetan name of the element.
    pub fn get_name(&self) -> (s: String)
        requires
            self.wf(),
        ensures
            s@ == Self::name_at(self@),
    {
        if self.parent.get_index() == 3 {
            String::from_str("铁")
        } else {
            self.parent.get_name()
        }
    }

    /// The element `n` places on, counted round the five.
    pub fn next(&self, n: isize) -> (r: Self)
        requires
            self.wf(),
        ensures
            r.wf(),
            r@ == (self@ + n) % 5,
    {
        Self { parent: self.parent.next(n) }
    }

    /// The element that this one brings forth.
    pub fn get_reinforce(&self) -> (r: Self)
        requires
            self.wf(),
        ensures
            r.wf(),
            r@ == (self@ + 1) % 5,
    {
        self.next(1)
    }

    /// The element that this one holds down.
    pub fn get_restrain(&self) -> (r: Self)
        requires
            self.wf(),
        ensures
            r.wf(),
            r@ == (self@ + 2) % 5,
    {
        self.next(2)
    }

    /// The element that brings this one forth.
    pub fn get_reinforced(&self) -> (r: Self)
        requires
            self.wf(),
        ensures
            r.wf(),
            r@ == (self@ - 1) % 5,
    {
        self.next(-1)
    }

    /// The element that holds this one down.
    pub fn get_restrained(&self) -> (r: Self)
        requires
            self.wf(),
        ensures
            r.wf(),
            r@ == (self@ - 2) % 5,
    {
        self.next(-2)
    }

    /// The direction of the element.
    pub fn get_direction(&self) -> (d: Direction)
        requires
            self.wf(),
        ensures
            d.wf(),
            d@ == crate::culture::element_direction(self@),
    {
        self.parent.get_direction()
    }
}

/// Every element goes with every animal in some year of the cycle of sixty.
pub proof fn lemma_every_pair_has_a_year(element: nat, zodiac: nat)
    requires
        element < 5,
        zodiac < 12,
    ensures
        RabByungYear::place_of(element, zodiac, 0) < 60,
{
    reveal_with_fuel(RabByungYear::place_of, 61);
}

/// The months from the beginning of year 0 to the `k`-th leap month: the
/// first leap month is the 4th month of year 1, and the leap months follow
/// each other after 33 and 32 months in turn.
#[verifier::opaque]
pub open spec fn leap_ordinal(k: nat) -> int {
    (15 + 65 * (k / 2) + 33 * (k % 2)) as int
}

/// The number of the month that is doubled in the year `year`, or 0 if the
/// year has no leap month.
pub open spec fn leap_month_of_year(year: int) -> int {
    if exists|k: nat| #[trigger] leap_ordinal(k) / 12 == year {
        let k = choose|k: nat| #[trigger] leap_ordinal(k) / 12 == year;
        leap_ordinal(k) % 12 + 1
    } else {
        0
    }
}

/// Each leap month comes more than a year after the one before, so no year
/// has two.
pub proof fn lemma_leap_ordinal_grows(a: nat, b: nat)
    requires
        a < b,
    ensures
        leap_ordinal(a) + 32 <= leap_ordinal(b),
        leap_ordinal(a) / 12 < leap_ordinal(b) / 12,
{
    reveal(leap_ordinal);
    let qa = a / 2;
    let qb = b / 2;
    assert(qa <= qb);
    if qa == qb {
        assert(a % 2 == 0 && b % 2 == 1);
    }
}

/// From one leap month to the next it is 33 months after an even one and 32
/// after an odd one.
pub proof fn lemma_leap_ordinal_step(k: nat)
    ensures
        leap_ordinal(k + 1) == leap_ordinal(k) + if k % 2 == 0 {
            33int
        } else {
            32int
        },
{
    reveal(leap_ordinal);
    if k % 2 == 0 {
        assert((k + 1) / 2 == k / 2 && (k + 1) % 2 == 1);
    } else {
        assert((k + 1) / 2 == k / 2 + 1 && (k + 1) % 2 == 0);
    }
}

/// The leap month of a year is found by going through the leap months up to
/// the first that is not before the year: if that one is in the year it is
/// the year's leap month, and if not the year has none.
proof fn lemma_leap_month_found(year: int, t: nat, y: int, m: int)
    requires
        1 <= m <= 12,
        12 * y + m - 1 == leap_ordinal(t),
        t > 0 ==> leap_ordinal((t - 1) as nat) < 12 * year,
        y >= year,
    ensures
        leap_month_of_year(year) == if y == year {
            m
        } else {
            0
        },
{
    assert(leap_ordinal(t) / 12 == y && leap_ordinal(t) % 12 == m - 1);
    assert forall|j: nat| j != t implies #[trigger] leap_ordinal(j) / 12 != year by {
        if j < t {
            if j + 1 < t {
                lemma_leap_ordinal_grows(j, (t - 1) as nat);
            }
            assert(leap_ordinal(j) < 12 * year);
        } else {
            lemma_leap_ordinal_grows(t, j);
        }
    }
    if y == year {
        let chosen = choose|j: nat| #[trigger] leap_ordinal(j) / 12 == year;
        assert(chosen == t);
    }
}

/// The written form of the number of a cycle, 1 to 999: its hundreds, tens
/// and units each with its word, a zero where the tens are missing between
/// hundreds and units, and no "one" before the ten of 10 to 19.
pub open spec fn cycle_number_text(n: nat) -> Seq<char> {
    let h = n / 100;
    let t = n / 10 % 10;
    let u = n % 10;
    let hundreds = if h > 0 {
        crate::lunar::digit_text(h as int) + "百"@
    } else {
        Seq::<char>::empty()
    };
    let tens = if t > 0 {
        if h == 0 && t == 1 {
            "十"@
        } else {
            crate::lunar::digit_text(t as int) + "十"@
        }
    } else if h > 0 && u > 0 {
        "零"@
    } else {
        Seq::<char>::empty()
    };
    let units = if u > 0 {
        crate::lunar::digit_text(u as int)
    } else {
        Seq::<char>::empty()
    };
    hundreds + tens + units
}

/// The number of a cycle in writing.
pub fn cycle_number_string(n: usize) -> (s: String)
    requires
        1 <= n <= 999,
    ensures
        s@ == cycle_number_text(n as nat),
{
    let h: usize = n / 100;
    let t: usize = n / 10 % 10;
    let u: usize = n % 10;
    let mut s: String = String::new();
    if h > 0 {
        s.append(crate::lunar::digit_str(h as u32));
        s.append("百");
    }
    if t > 0 {
        if h == 0 && t == 1 {
            s.append("十");
        } else {
            s.append(crate::lunar::digit_str(t as u32));
            s.append("十");
        }
    } else if h > 0 && u > 0 {
        s.append("零");
    }
    if u > 0 {
        s.append(crate::lunar::digit_str(u as u32));
    }
    assert(s@ =~= cycle_number_text(n as nat));
    s
}

impl RabByungYear {
    /// The number of the year's cycle, from 0.
    pub closed spec fn cycle(&self) -> nat {
        self.rab_byung_index as nat
    }

    /// The place of the year in its cycle, below 60.
    pub closed spec fn place(&self) -> nat {
        self.sixty_cycle@
    }

    /// The cycle is one of the 151 and the place one of the 60.
    pub closed spec fn wf(&self) -> bool {
        self.rab_byung_index <= 150 && self.sixty_cycle.wf()
    }

    /// The number of the year in the civil calendar: the cycles begin at
    /// 1024, sixty years apart.
    pub open spec fn year(&self) -> int {
        (1024 + self.cycle() * 60 + self.place()) as int
    }

    /// The first place of the cycle of sixty whose animal and element are
    /// those given, or 60 if there is none.
    pub open spec fn place_of(element: nat, zodiac: nat, from: nat) -> nat
        decreases 60 - from,
    {
        if from >= 60 {
            60
        } else if from % 12 == zodiac && from % 10 / 2 == element {
            from
        } else {
            Self::place_of(element, zodiac, from + 1)
        }
    }

    /// The written form of the year: the number of its cycle counted from
    /// one, the word for the cycle, then its element, its animal and the word
    /// for year.
    pub open spec fn name_of(cycle: nat, place: nat) -> Seq<char> {
        "第"@ + cycle_number_text(cycle + 1) + "饶迥"@ + RabByungElement::name_at(place % 10 / 2)
            + Zodiac::name_at(place % 12) + "年"@
    }

    /// The year at a place of a cycle; refused for a cycle outside 0 to 150.
    pub fn new(rab_byung_index: isize, sixty_cycle: SixtyCycle) -> (r: Result<Self, String>)
        requires
            sixty_cycle.wf(),
        ensures
            0 <= rab_byung_index <= 150 <==> r is Ok,
            r is Ok ==> r->Ok_0.wf() && r->Ok_0.cycle() == rab_byung_index && r->Ok_0.place()
                == sixty_cycle@,
            r is Err ==> r->Err_0@ == "illegal rab-byung index: "@ + signed_decimal_text(
                rab_byung_index as int,
            ),
    {
        if rab_byung_index < 0 || rab_byung_index > 150 {
            let mut message: String = String::from_str("illegal rab-byung index: ");
            append_signed_decimal(&mut message, rab_byung_index);
            Err(message)
        } else {
            Ok(Self { rab_byung_index: rab_byung_index as usize, sixty_cycle })
        }
    }

    /// The year at a place of a cycle; refused for a cycle outside 0 to 150.
    pub fn from_sixty_cycle(rab_byung_index: isize, sixty_cycle: SixtyCycle) -> (r: Result<
        Self,
        String,
    >)
        requires
            sixty_cycle.wf(),
        ensures
            0 <= rab_byung_index <= 150 <==> r is Ok,
            r is Ok ==> r->Ok_0.wf() && r->Ok_0.cycle() == rab_byung_index && r->Ok_0.place()
                == sixty_cycle@,
            r is Err ==> r->Err_0@ == "illegal rab-byung index: "@ + signed_decimal_text(
                rab_byung_index as int,
            ),
    {
        Self::new(rab_byung_index, sixty_cycle)
    }

    /// The year of a cycle that has the given element and animal; refused
    /// where no year of a cycle has both, or for a cycle outside 0 to 150.
    pub fn from_element_zodiac(rab_byung_index: isize, element: RabByungElement, zodiac: Zodiac) -> (r:
        Result<Self, String>)
        requires
            element.wf(),
            zodiac.wf(),
        ensures
            (Self::place_of(element@, zodiac@, 0) < 60 && 0 <= rab_byung_index <= 150) <==> r is Ok,
            r is Ok ==> r->Ok_0.wf() && r->Ok_0.cycle() == rab_byung_index && r->Ok_0.place()
                == Self::place_of(element@, zodiac@, 0),
            Self::place_of(element@, zodiac@, 0) < 60 && r is Err ==> r->Err_0@
                == "illegal rab-byung index: "@ + signed_decimal_text(rab_byung_index as int),
            Self::place_of(element@, zodiac@, 0) >= 60 ==> r is Err && r->Err_0@
                == "illegal rab-byung element "@ + RabByungElement::name_at(element@)
                + ", zodiac "@ + Zodiac::name_at(zodiac@),
    {
        let mut i: isize = 0;
        while i < 60
            invariant
                0 <= i <= 60,
                element.wf(),
                zodiac.wf(),
                Self::place_of(element@, zodiac@, 0) == Self::place_of(element@, zodiac@, i as nat),
            decreases 60 - i,
        {
            let sc = SixtyCycle::from_index(i);
            if sc.get_earth_branch().get_zodiac().get_index() == zodiac.get_index()
                && sc.get_heaven_stem().get_element().get_index() == element.get_index() {
                return Self::from_sixty_cycle(rab_byung_index, sc);
            }
            i = i + 1;
        }
        let mut message: String = String::from_str("illegal rab-byung element ");
        let element_name = element.get_name();
        message.append(element_name.as_str());
        message.append(", zodiac ");
        let zodiac_name = zodiac.get_name();
        message.append(zodiac_name.as_str());
        Err(message)
    }

    /// The Tibetan year of a year of the civil calendar. The cycle is the
    /// number of whole sixties from 1024 to the year, where a year up to 59
    /// years before 1024 counts as in the first cycle; the place is that of
    /// the year in the cycle of sixty that has 4 at its head. Refused for a
    /// year before 965 or after 10083.
    pub fn from_year(year: isize) -> (r: Result<Self, String>)
        requires
            -1_000_000_000 <= year <= 1_000_000_000,
        ensures
            965 <= year <= 10083 <==> r is Ok,
            r is Ok ==> r->Ok_0.wf() && r->Ok_0.place() == (year - 4) % 60 && r->Ok_0.cycle()
                == if year >= 1024 {
                (year - 1024) / 60
            } else {
                0
            },
            year >= 1024 && r is Ok ==> r->Ok_0.year() == year,
    {
        let r = Self::from_sixty_cycle((year - 1024) / 60, SixtyCycle::from_index(year - 4));
        proof {
            if year >= 1024 && r is Ok {
                let d = year - 1024;
                assert((d + 1020) % 60 == d % 60) by {
                    vstd::arithmetic::div_mod::lemma_mod_multiples_vanish(17, d as int, 60);
                }
                assert(d == 60 * (d / 60) + d % 60) by {
                    vstd::arithmetic::div_mod::lemma_fundamental_div_mod(d as int, 60);
                }
            }
        }
        r
    }

    /// The number of the year's cycle, from 0.
    pub fn get_rab_byung_index(&self) -> (i: usize)
        requires
            self.wf(),
        ensures
            i == self.cycle(),
            i <= 150,
    {
        self.rab_byung_index
    }

    /// The year's pair of stem and branch.
    pub fn get_sixty_cycle(&self) -> (sc: SixtyCycle)
        requires
            self.wf(),
        ensures
            sc.wf(),
            sc@ == self.place(),
    {
        self.sixty_cycle
    }

    /// The animal of the year.
    pub fn get_zodiac(&self) -> (z: Zodiac)
        requires
            self.wf(),
        ensures
            z.wf(),
            z@ == self.place() % 12,
    {
        self.sixty_cycle.get_earth_branch().get_zodiac()
    }

    /// The element of the year.
    pub fn get_element(&self) -> (e: RabByungElement)
        requires
            self.wf(),
        ensures
            e.wf(),
            e@ == self.place() % 10 / 2,
    {
        RabByungElement::from_index(
            self.sixty_cycle.get_heaven_stem().get_element().get_index() as isize,
        )
    }

    /// The number of the year in the civil calendar.
    pub fn get_year(&self) -> (year: isize)
        requires
            self.wf(),
        ensures
            year == self.year(),
            1024 <= year <= 10083,
    {
        1024 + self.rab_byung_index as isize * 60 + self.sixty_cycle.get_index() as isize
    }

    /// The number of the month that is doubled in the year, or 0 if the year
    /// has no leap month.
    pub fn get_leap_month(&self) -> (month: usize)
        requires
            self.wf(),
        ensures
            month == leap_month_of_year(self.year()),
            month <= 12,
    {
        let current_year: isize = self.get_year();
        let mut y: isize = 1;
        let mut m: isize = 4;
        let mut t: isize = 0;
        proof {
            reveal(leap_ordinal);
            assert(leap_ordinal(0) == 15);
        }
        while y < current_year
            invariant
                1024 <= current_year <= 10083,
                1 <= y <= current_year + 3,
                1 <= m <= 12,
                0 <= t <= y,
                12 * y + m - 1 == leap_ordinal(t as nat),
                t > 0 ==> leap_ordinal((t - 1) as nat) < 12 * current_year,
            decreases current_year + 3 - y,
        {
            let step: isize = if t % 2 == 0 {
                33
            } else {
                32
            };
            let i: isize = m - 1 + step;
            proof {
                lemma_leap_ordinal_step(t as nat);
                let total = y * 12 + i;
                vstd::arithmetic::div_mod::lemma_fundamental_div_mod(total as int, 12);
                vstd::arithmetic::div_mod::lemma_mod_multiples_vanish(y as int, i as int, 12);
                assert(32 <= i <= 44);
                assert(12 * y + 24 <= total < 12 * y + 48);
            }
            y = (y * 12 + i) / 12;
            m = i % 12 + 1;
            t = t + 1;
        }
        proof {
            lemma_leap_month_found(self.year(), t as nat, y as int, m as int);
        }
        if y == current_year {
            m as usize
        } else {
            0
        }
    }

    /// The year `n` years on; refused where that leaves the years 965 to
    /// 10083.
    pub fn next(&self, n: isize) -> (r: Result<Self, String>)
        requires
            self.wf(),
            -1_000_000 <= n <= 1_000_000,
        ensures
            965 <= self.year() + n <= 10083 <==> r is Ok,
            r is Ok ==> r->Ok_0.wf(),
            r is Ok && self.year() + n >= 1024 ==> r->Ok_0.year() == self.year() + n,
    {
        Self::from_year(self.get_year() + n)
    }

    /// The year of the civil calendar with the same number.
    pub fn get_solar_year(&self) -> (y: SolarYear)
        requires
            self.wf(),
            valid_year(self.year()),
        ensures
            y.wf(),
            y@ == self.year(),
    {
        SolarYear::from_year(self.get_year())
    }

    /// The number of months of the year: 13 with a leap month, else 12.
    pub fn get_month_count(&self) -> (n: usize)
        requires
            self.wf(),
        ensures
            n == if leap_month_of_year(self.year()) > 0 {
                13int
            } else {
                12int
            },
    {
        if self.get_leap_month() > 0 {
            13
        } else {
            12
        }
    }

    /// The written form of the year.
    pub fn get_name(&self) -> (s: String)
        requires
            self.wf(),
        ensures
            s@ == Self::name_of(self.cycle(), self.place()),
    {
        let mut s: String = String::from_str("第");
        let number = cycle_number_string(self.rab_byung_index + 1);
        s.append(number.as_str());
        s.append("饶迥");
        let element = self.get_element().get_name();
        s.append(element.as_str());
        let zodiac = self.get_zodiac().get_name();
        s.append(zodiac.as_str());
        s.append("年");
        s
    }

    /// The written form of the year.
    pub fn to_string(&self) -> (s: String)
        requires
            self.wf(),
        ensures
            s@ == Self::name_of(self.cycle(), self.place()),
    {
        self.get_name()
    }
}

/// The name of a Tibetan month by its number.
pub open spec fn month_name_text(month: int) -> Seq<char> {
    if month == 1 {
        "正月"@
    } else if month == 2 {
        "二月"@
    } else if month == 3 {
        "三月"@
    } else if month == 4 {
        "四月"@
    } else if month == 5 {
        "五月"@
    } else if month == 6 {
        "六月"@
    } else if month == 7 {
        "七月"@
    } else if month == 8 {
        "八月"@
    } else if month == 9 {
        "九月"@
    } else if month == 10 {
        "十月"@
    } else if month == 11 {
        "十一月"@
    } else {
        "十二月"@
    }
}

/// The second name of a Tibetan month by its number.
pub open spec fn month_alias_text(month: int) -> Seq<char> {
    if month == 1 {
        "神变月"@
    } else if month == 2 {
        "苦行月"@
    } else if month == 3 {
        "具香月"@
    } else if month == 4 {
        "萨嘎月"@
    } else if month == 5 {
        "作净月"@
    } else if month == 6 {
        "明净月"@
    } else if month == 7 {
        "具醉月"@
    } else if month == 8 {
        "具贤月"@
    } else if month == 9 {
        "天降月"@
    } else if month == 10 {
        "持众月"@
    } else if month == 11 {
        "庄严月"@
    } else {
        "满意月"@
    }
}

/// The name of a Tibetan month by its number.
pub fn month_name_str(month: usize) -> (s: &'static str)
    requires
        1 <= month <= 12,
    ensures
        s@ == month_name_text(month as int),
{
    if month == 1 {
        "正月"
    } else if month == 2 {
        "二月"
    } else if month == 3 {
        "三月"
    } else if month == 4 {
        "四月"
    } else if month == 5 {
        "五月"
    } else if month == 6 {
        "六月"
    } else if month == 7 {
        "七月"
    } else if month == 8 {
        "八月"
    } else if month == 9 {
        "九月"
    } else if month == 10 {
        "十月"
    } else if month == 11 {
        "十一月"
    } else {
        "十二月"
    }
}

/// The second name of a Tibetan month by its number.
pub fn month_alias_str(month: usize) -> (s: &'static str)
    requires
        1 <= month <= 12,
    ensures
        s@ == month_alias_text(month as int),
{
    if month == 1 {
        "神变月"
    } else if month == 2 {
        "苦行月"
    } else if month == 3 {
        "具香月"
    } else if month == 4 {
        "萨嘎月"
    } else if month == 5 {
        "作净月"
    } else if month == 6 {
        "明净月"
    } else if month == 7 {
        "具醉月"
    } else if month == 8 {
        "具贤月"
    } else if month == 9 {
        "天降月"
    } else if month == 10 {
        "持众月"
    } else if month == 11 {
        "庄严月"
    } else {
        "满意月"
    }
}

/// A month of the Tibetan calendar, of the years 1950 to 2050.
#[derive(Clone, Copy, Debug, PartialEq, Eq, Structural)]
pub struct RabByungMonth {
    year: RabByungYear,
    month: usize,
    leap: bool,
    index_in_year: usize,
}

/// The special days of one month: a positive number is a day that comes
/// twice, a negative one a day that is left out.
pub struct RabByungMonthData {
    /// The year of the month.
    pub year: u16,
    /// The place of the month in its year, from 0.
    pub month: u8,
    /// The special days.
    pub days: Vec<isize>,
}

/// The number of months of a year.
pub open spec fn month_count(year: int) -> int {
    if leap_month_of_year(year) > 0 {
        13
    } else {
        12
    }
}

/// The place in its year, from 0, of the month of number `month`: the leap
/// month stands after the month it doubles.
pub open spec fn index_in_year_of(year: int, month: int, leap: bool) -> int {
    let leap_month = leap_month_of_year(year);
    if leap || (leap_month > 0 && leap_month < month) {
        month
    } else {
        month - 1
    }
}

/// Why a year and a month do not name a month of the calendar, if they do
/// not. A negative `month` asks for the leap month of that number.
pub open spec fn month_error(year: int, month: int) -> Option<Seq<char>> {
    let m = if month < 0 {
        -month
    } else {
        month
    };
    if month == 0 || month > 12 || month < -12 {
        Some("illegal rab-byung month: "@ + signed_decimal_text(month))
    } else if year < 1950 || year > 2050 {
        Some(
            "rab-byung year "@ + signed_decimal_text(year) + " must between 1950 and 2050"@,
        )
    } else if year == 1950 && m < 12 {
        Some(
            "month "@ + signed_decimal_text(month) + " must be 12 in rab-byung year "@
                + signed_decimal_text(year),
        )
    } else if month < 0 && m != leap_month_of_year(year) {
        Some(
            "illegal leap month "@ + decimal_text(m as nat) + " in rab-byung year "@
                + signed_decimal_text(year),
        )
    } else {
        None
    }
}

/// The year and the place in it, from 1, that a count of `m` months from the
/// beginning of `year` comes to, for a count above 0.
pub open spec fn roll_forward(year: int, m: int) -> (int, int)
    decreases m,
{
    if m > month_count(year) {
        roll_forward(year + 1, m - month_count(year))
    } else {
        (year, m)
    }
}

/// The year and the place in it, from 1, that a count of `m` months from the
/// beginning of `year` comes to, for a count of 0 or below.
pub open spec fn roll_back(year: int, m: int) -> (int, int)
    decreases (if m <= 0 {
        1 - m
    } else {
        0
    }),
{
    if m <= 0 {
        roll_back(year - 1, m + month_count(year - 1))
    } else {
        (year, m)
    }
}

/// The year and the place in it, from 1, of the month `n` months after the
/// month at place `index`, from 0, of `year`.
pub open spec fn month_after(year: int, index: int, n: int) -> (int, int) {
    if n > 0 {
        roll_forward(year, index + 1 + n)
    } else {
        roll_back(year, index + 1 + n)
    }
}

/// The number of the month at place `place`, from 1, of a year, negative for
/// the leap month.
pub open spec fn month_at_place(year: int, place: int) -> int {
    let leap_month = leap_month_of_year(year);
    if leap_month > 0 && place == leap_month + 1 {
        -(place - 1)
    } else if leap_month > 0 && place > leap_month {
        place - 1
    } else {
        place
    }
}

/// The special days that the table holds for the month at place `month` of
/// `year`: those of the first entry for it, none if it has no entry.
pub open spec fn special_days_from(
    table: Seq<RabByungMonthData>,
    year: int,
    month: int,
    from: int,
) -> Seq<isize>
    decreases table.len() - from,
{
    if from < 0 || from >= table.len() {
        Seq::empty()
    } else if table[from].year == year && table[from].month == month {
        table[from].days@
    } else {
        special_days_from(table, year, month, from + 1)
    }
}

/// The days of `days` above 0, in order.
pub open spec fn leap_days_of(days: Seq<isize>) -> Seq<isize> {
    days.filter(|d: isize| d > 0)
}

/// The days left out that `days` names, in order: its numbers below 0, each
/// without its sign.
pub open spec fn miss_days_of(days: Seq<isize>) -> Seq<isize> {
    days.filter(|d: isize| d < 0).map_values(|d: isize| (-d) as isize)
}

/// Looks up the special days of the month at place `month` of `year`.
pub fn get_rab_byung_month_days(table: &[RabByungMonthData], year: usize, month: usize) -> (days:
    Vec<isize>)
    requires
        year <= 0xffff,
        month <= 0xff,
    ensures
        days@ == special_days_from(table@, year as int, month as int, 0),
{
    let mut i: usize = 0;
    while i < table.len()
        invariant
            i <= table@.len(),
            special_days_from(table@, year as int, month as int, 0) == special_days_from(
                table@,
                year as int,
                month as int,
                i as int,
            ),
        decreases table@.len() - i,
    {
        if table[i].year as usize == year && table[i].month as usize == month {
            return table[i].days.clone();
        }
        i = i + 1;
    }
    Vec::new()
}

impl RabByungMonth {
    /// The month's year.
    pub closed spec fn in_year(&self) -> RabByungYear {
        self.year
    }

    /// The number of the month's year in the civil calendar.
    pub closed spec fn year(&self) -> int {
        self.year.year()
    }

    /// The number of the month, 1 to 12.
    pub closed spec fn month(&self) -> int {
        self.month as int
    }

    /// Whether the month is the leap month of its number.
    pub closed spec fn leap(&self) -> bool {
        self.leap
    }

    /// The place of the month in its year, from 0.
    pub closed spec fn index(&self) -> int {
        self.index_in_year as int
    }

    /// The month is one of the calendar: of a year from 1950 to 2050, the 12th
    /// if of 1950, a leap month only where the year doubles it, at its place
    /// in the year.
    pub closed spec fn wf(&self) -> bool {
        &&& self.year.wf()
        &&& 1950 <= self.year.year() <= 2050
        &&& 1 <= self.month <= 12
        &&& self.year.year() == 1950 ==> self.month == 12
        &&& self.leap ==> self.month == leap_month_of_year(self.year.year())
        &&& self.index_in_year == index_in_year_of(self.year.year(), self.month as int, self.leap)
    }

    /// What well-formedness says, for callers.
    pub proof fn lemma_wf(&self)
        requires
            self.wf(),
        ensures
            1950 <= self.year() <= 2050,
            1 <= self.month() <= 12,
            self.year() == 1950 ==> self.month() == 12,
            self.leap() ==> self.month() == leap_month_of_year(self.year()),
            self.index() == index_in_year_of(self.year(), self.month(), self.leap()),
            0 <= self.index() <= 12,
    {
    }

    /// The written form of a month: its name, after the word for "leap" for a
    /// leap month.
    pub open spec fn name_of(month: int, leap: bool) -> Seq<char> {
        if leap {
            "闰"@ + month_name_text(month)
        } else {
            month_name_text(month)
        }
    }

    /// The second written form of a month.
    pub open spec fn alias_of(month: int, leap: bool) -> Seq<char> {
        if leap {
            "闰"@ + month_alias_text(month)
        } else {
            month_alias_text(month)
        }
    }

    /// The month of number `month` of a year, the leap month of that number
    /// for a negative `month`; refused, with the reason, where the calendar
    /// has no such month.
    pub fn new(year: RabByungYear, month: isize) -> (r: Result<Self, String>)
        requires
            year.wf(),
        ensures
            month_error(year.year(), month as int) is None <==> r is Ok,
            r is Err ==> Some(r->Err_0@) == month_error(year.year(), month as int),
            r is Ok ==> {
                &&& r->Ok_0.wf()
                &&& r->Ok_0.in_year() == year
                &&& r->Ok_0.year() == year.year()
                &&& r->Ok_0.month() == if month < 0 {
                    -month
                } else {
                    month as int
                }
                &&& r->Ok_0.leap() == (month < 0)
                &&& r->Ok_0.index() == index_in_year_of(
                    year.year(),
                    r->Ok_0.month(),
                    r->Ok_0.leap(),
                )
            },
    {
        if month == 0 || month > 12 || month < -12 {
            let mut message: String = String::from_str("illegal rab-byung month: ");
            append_signed_decimal(&mut message, month);
            return Err(message);
        }
        let y: isize = year.get_year();
        if y < 1950 || y > 2050 {
            let mut message: String = String::from_str("rab-byung year ");
            append_signed_decimal(&mut message, y);
            message.append(" must between 1950 and 2050");
            return Err(message);
        }
        let m: usize = if month < 0 {
            (-month) as usize
        } else {
            month as usize
        };
        if y == 1950 && m < 12 {
            let mut message: String = String::from_str("month ");
            append_signed_decimal(&mut message, month);
            message.append(" must be 12 in rab-byung year ");
            append_signed_decimal(&mut message, y);
            return Err(message);
        }
        let leap: bool = month < 0;
        let leap_month: usize = year.get_leap_month();
        if leap && m != leap_month {
            let mut message: String = String::from_str("illegal leap month ");
            append_decimal(&mut message, m);
            message.append(" in rab-byung year ");
            append_signed_decimal(&mut message, y);
            return Err(message);
        }
        let mut index: usize = m - 1;
        if leap || (leap_month > 0 && leap_month < m) {
            index = index + 1;
        }
        Ok(Self { year, month: m, leap, index_in_year: index })
    }

    /// The month of number `month` of the year of a cycle that has the given
    /// element and animal.
    pub fn from_element_zodiac(
        rab_byung_index: isize,
        element: RabByungElement,
        zodiac: Zodiac,
        month: isize,
    ) -> (r: Result<Self, String>)
        requires
            element.wf(),
            zodiac.wf(),
        ensures
            r is Ok ==> {
                &&& r->Ok_0.wf()
                &&& 0 <= rab_byung_index <= 150
                &&& RabByungYear::place_of(element@, zodiac@, 0) < 60
                &&& r->Ok_0.year() == 1024 + rab_byung_index * 60 + RabByungYear::place_of(
                    element@,
                    zodiac@,
                    0,
                )
                &&& month_error(r->Ok_0.year(), month as int) is None
                &&& r->Ok_0.month() == if month < 0 {
                    -month
                } else {
                    month as int
                }
                &&& r->Ok_0.leap() == (month < 0)
                &&& r->Ok_0.index() == index_in_year_of(
                    r->Ok_0.year(),
                    r->Ok_0.month(),
                    r->Ok_0.leap(),
                )
            },
            r is Err <==> (RabByungYear::place_of(element@, zodiac@, 0) >= 60 || !(0
                <= rab_byung_index <= 150) || month_error(
                1024 + rab_byung_index * 60 + RabByungYear::place_of(element@, zodiac@, 0),
                month as int,
            ) is Some),
    {
        match RabByungYear::from_element_zodiac(rab_byung_index, element, zodiac) {
            Ok(year) => Self::new(year, month),
            Err(e) => Err(e),
        }
    }

    /// The month of number `month` of the year `year` of the civil calendar.
    pub fn from_ym(year: isize, month: isize) -> (r: Result<Self, String>)
        requires
            -1_000_000_000 <= year <= 1_000_000_000,
        ensures
            (965 <= year <= 10083 && month_error(year as int, month as int) is None) <==> r is Ok,
            r is Ok ==> {
                &&& r->Ok_0.wf()
                &&& r->Ok_0.year() == year
                &&& r->Ok_0.month() == if month < 0 {
                    -month
                } else {
                    month as int
                }
                &&& r->Ok_0.leap() == (month < 0)
                &&& r->Ok_0.index() == index_in_year_of(
                    year as int,
                    r->Ok_0.month(),
                    r->Ok_0.leap(),
                )
            },
    {
        match RabByungYear::from_year(year) {
            Ok(y) => {
                let r = Self::new(y, month);
                proof {
                    if year < 1024 {
                        assert(y.year() < 1950 || month == 0 || month > 12 || month < -12);
                    }
                }
                r
            },
            Err(e) => Err(e),
        }
    }

    /// The month's year.
    pub fn get_rab_byung_year(&self) -> (y: RabByungYear)
        requires
            self.wf(),
        ensures
            y.wf(),
            y == self.in_year(),
            y.year() == self.year(),
    {
        self.year
    }

    /// The number of the month's year in the civil calendar.
    pub fn get_year(&self) -> (y: isize)
        requires
            self.wf(),
        ensures
            y == self.year(),
    {
        self.year.get_year()
    }

    /// The number of the month, 1 to 12.
    pub fn get_month(&self) -> (m: usize)
        ensures
            m == self.month(),
    {
        self.month
    }

    /// The number of the month, negative for a leap month.
    pub fn get_month_with_leap(&self) -> (m: isize)
        requires
            self.wf(),
        ensures
            m == if self.leap() {
                -self.month()
            } else {
                self.month()
            },
    {
        if self.leap {
            -(self.month as isize)
        } else {
            self.month as isize
        }
    }

    /// The place of the month in its year, from 0 to 12.
    pub fn get_index_in_year(&self) -> (i: usize)
        ensures
            i == self.index(),
    {
        self.index_in_year
    }

    /// Whether the month is the leap month of its number.
    pub fn is_leap(&self) -> (leap: bool)
        ensures
            leap == self.leap(),
    {
        self.leap
    }

    /// The written form of the month.
    pub fn get_name(&self) -> (s: String)
        requires
            self.wf(),
        ensures
            s@ == Self::name_of(self.month(), self.leap()),
    {
        let name: &str = month_name_str(self.month);
        if self.leap {
            String::from_str("闰").concat(name)
        } else {
            String::from_str(name)
        }
    }

    /// The second written form of the month.
    pub fn alias(&self) -> (s: String)
        requires
            self.wf(),
        ensures
            s@ == Self::alias_of(self.month(), self.leap()),
    {
        let name: &str = month_alias_str(self.month);
        if self.leap {
            String::from_str("闰").concat(name)
        } else {
            String::from_str(name)
        }
    }

    /// The written form of the month with its year.
    pub fn to_string(&self) -> (s: String)
        requires
            self.wf(),
        ensures
            s@ == RabByungYear::name_of(self.in_year().cycle(), self.in_year().place())
                + Self::name_of(self.month(), self.leap()),
    {
        let name = self.get_name();
        self.year.get_name().concat(name.as_str())
    }

    /// The month `n` months on, back for a negative `n`; refused where that
    /// leaves the months of the calendar.
    pub fn next(&self, n: isize) -> (r: Result<Self, String>)
        requires
            self.wf(),
            -11_000 <= n <= 96_000,
        ensures
            ({
                let (year, place) = month_after(self.year(), self.index(), n as int);
                let month = month_at_place(year, place);
                &&& n != 0 ==> (month_error(year, month) is None <==> r is Ok)
                &&& n != 0 && r is Err ==> Some(r->Err_0@) == month_error(year, month)
                &&& n != 0 && r is Ok ==> {
                    &&& r->Ok_0.wf()
                    &&& r->Ok_0.year() == year
                    &&& r->Ok_0.index() == place - 1
                }
            }),
            n == 0 ==> r == Ok::<Self, String>(*self),
    {
        if n == 0 {
            return Ok(*self);
        }
        let mut m: isize = self.index_in_year as isize + 1 + n;
        let mut y: RabByungYear = self.year;
        let ghost y0 = self.year();
        let ghost m0 = m as int;
        if n > 0 {
            let mut count: isize = y.get_month_count() as isize;
            while m > count
                invariant
                    y.wf(),
                    count == month_count(y.year()),
                    roll_forward(y0, m0) == roll_forward(y.year(), m as int),
                    1950 <= y0 <= 2050,
                    1 <= m0 <= 96_014,
                    1 <= m,
                    y0 <= y.year(),
                    12 * y.year() + m <= 12 * y0 + m0,
                decreases m,
            {
                m = m - count;
                match y.next(1) {
                    Ok(next_year) => {
                        y = next_year;
                    },
                    Err(e) => {
                        return Err(e);
                    },
                }
                count = y.get_month_count() as isize;
            }
        } else {
            while m <= 0
                invariant
                    y.wf(),
                    roll_back(y0, m0) == roll_back(y.year(), m as int),
                    1950 <= y0 <= 2050,
                    -11_000 <= m0 <= 13,
                    m <= 13,
                    y.year() <= y0,
                    m0 + 12 * (y0 - y.year()) <= m,
                decreases (if m <= 0 {
                    1 - m
                } else {
                    0
                }),
            {
                match y.next(-1) {
                    Ok(previous_year) => {
                        y = previous_year;
                    },
                    Err(e) => {
                        return Err(e);
                    },
                }
                m = m + y.get_month_count() as isize;
            }
        }
        let ghost place = m as int;
        let mut leap: bool = false;
        let leap_month: isize = y.get_leap_month() as isize;
        if leap_month > 0 {
            if m == leap_month + 1 {
                leap = true;
            }
            if m > leap_month {
                m = m - 1;
            }
        }
        let r = Self::new(
            y,
            if leap {
                -m
            } else {
                m
            },
        );
        proof {
            if r is Ok {
                assert(r->Ok_0.index() == place - 1);
            }
        }
        r
    }

    /// The special days of the month in `table`.
    pub fn get_special_days(&self, table: &[RabByungMonthData]) -> (days: Vec<isize>)
        requires
            self.wf(),
        ensures
            days@ == special_days_from(table@, self.year(), self.index(), 0),
    {
        let year: usize = self.year.get_year() as usize;
        get_rab_byung_month_days(table, year, self.index_in_year)
    }

    /// The days of the month that come twice, by `table`.
    pub fn get_leap_days(&self, table: &[RabByungMonthData]) -> (days: Vec<isize>)
        requires
            self.wf(),
        ensures
            days@ == leap_days_of(special_days_from(table@, self.year(), self.index(), 0)),
    {
        let special = self.get_special_days(table);
        let mut days: Vec<isize> = Vec::new();
        let mut i: usize = 0;
        while i < special.len()
            invariant
                i <= special@.len(),
                days@ == leap_days_of(special@.subrange(0, i as int)),
            decreases special@.len() - i,
        {
            proof {
                let before = special@.subrange(0, i as int);
                let after = special@.subrange(0, i as int + 1);
                assert(after =~= before.push(special@[i as int]));
                lemma_filter_push(before, special@[i as int], |d: isize| d > 0);
            }
            if special[i] > 0 {
                days.push(special[i]);
            }
            i = i + 1;
        }
        assert(special@.subrange(0, special@.len() as int) =~= special@);
        days
    }

    /// The days of the month that are left out, by `table`. A number that
    /// cannot lose its sign is not a day and is required not to occur.
    pub fn get_miss_days(&self, table: &[RabByungMonthData]) -> (days: Vec<isize>)
        requires
            self.wf(),
            forall|k: int|
                0 <= k < special_days_from(table@, self.year(), self.index(), 0).len()
                    ==> #[trigger] special_days_from(table@, self.year(), self.index(), 0)[k]
                    > isize::MIN,
        ensures
            days@ == miss_days_of(special_days_from(table@, self.year(), self.index(), 0)),
    {
        let special = self.get_special_days(table);
        let mut days: Vec<isize> = Vec::new();
        let mut i: usize = 0;
        while i < special.len()
            invariant
                i <= special@.len(),
                forall|k: int| 0 <= k < special@.len() ==> #[trigger] special@[k] > isize::MIN,
                days@ == miss_days_of(special@.subrange(0, i as int)),
            decreases special@.len() - i,
        {
            proof {
                let before = special@.subrange(0, i as int);
                let after = special@.subrange(0, i as int + 1);
                assert(after =~= before.push(special@[i as int]));
                lemma_filter_push(before, special@[i as int], |d: isize| d < 0);
                let kept = before.filter(|d: isize| d < 0);
                if special@[i as int] < 0 {
                    assert(kept.push(special@[i as int]).map_values(|d: isize| (-d) as isize)
                        =~= kept.map_values(|d: isize| (-d) as isize).push(
                        (-special@[i as int]) as isize,
                    ));
                }
            }
            if special[i] < 0 {
                days.push(-special[i]);
            }
            i = i + 1;
        }
        assert(special@.subrange(0, special@.len() as int) =~= special@);
        days
    }
}

/// Filtering a sequence with one more element at its end keeps what was kept
/// and the new element too where the test takes it.
pub proof fn lemma_filter_push(s: Seq<isize>, x: isize, keep: spec_fn(isize) -> bool)
    ensures
        s.push(x).filter(keep) == if keep(x) {
            s.filter(keep).push(x)
        } else {
            s.filter(keep)
        },
{
    reveal(Seq::filter);
    assert(s.push(x).drop_last() =~= s);
}

/// A day of the Tibetan calendar.
#[derive(Clone, Copy, Debug, PartialEq, Eq, Structural)]
pub struct RabByungDay {
    month: RabByungMonth,
    day: usize,
    leap: bool,
}

/// Whether the special days of a month are days: at most nine numbers, each
/// from 1 to 30 with or without a minus sign.
pub open spec fn valid_special_days(days: Seq<isize>) -> bool {
    &&& days.len() <= 9
    &&& forall|k: int| 0 <= k < days.len() ==> (1 <= (#[trigger] days[k]) <= 30 || -30 <= days[k] <= -1)
}

/// Whether every month of a table has special days that are days.
pub open spec fn valid_table(table: Seq<RabByungMonthData>) -> bool {
    forall|i: int| 0 <= i < table.len() ==> valid_special_days((#[trigger] table[i]).days@)
}

/// What a table holds for any month are days.
pub proof fn lemma_special_days_valid(
    table: Seq<RabByungMonthData>,
    year: int,
    month: int,
    from: int,
)
    requires
        valid_table(table),
        from >= 0,
    ensures
        valid_special_days(special_days_from(table, year, month, from)),
    decreases table.len() - from,
{
    if from < table.len() {
        if !(table[from].year == year && table[from].month == month) {
            lemma_special_days_valid(table, year, month, from + 1);
        }
    }
}

/// The number of days of a month with the given special days: thirty, and one
/// more for each day that comes twice, and one less for each left out.
pub open spec fn day_count_of(special: Seq<isize>) -> int {
    30 + leap_days_of(special).len() - miss_days_of(special).len()
}

/// A month has between 21 and 39 days.
pub proof fn lemma_day_count_bounds(special: Seq<isize>)
    requires
        valid_special_days(special),
    ensures
        21 <= day_count_of(special) <= 39,
{
    special.lemma_filter_len(|d: isize| d > 0);
    special.lemma_filter_len(|d: isize| d < 0);
}

/// The place in the calendar after the place `index` of `year`.
pub open spec fn place_after(year: int, index: int) -> (int, int) {
    if index + 1 < month_count(year) {
        (year, index + 1)
    } else {
        (year + 1, 0)
    }
}

/// The place in the calendar before the place `index` of `year`.
pub open spec fn place_before(year: int, index: int) -> (int, int) {
    if index > 0 {
        (year, index - 1)
    } else {
        (year - 1, month_count(year - 1) - 1)
    }
}

/// The place in its year of the month that the calendar begins with: the
/// twelfth month of 1950.
pub open spec fn first_place() -> int {
    index_in_year_of(1950, 12, false)
}

/// The days from the beginning of the calendar to the beginning of the month
/// at place `index` of `year`.
pub open spec fn days_before(table: Seq<RabByungMonthData>, year: int, index: int) -> int
    decreases (if year >= 1950 && index >= 0 {
        (year - 1950) * 14 + index
    } else {
        0
    }),
{
    if year < 1950 || index < 0 || index > 12 || (year == 1950 && index <= first_place()) {
        0
    } else {
        let (y, i) = place_before(year, index);
        days_before(table, y, i) + day_count_of(special_days_from(table, y, i, 0))
    }
}

/// The month that lies `days` days after the beginning of the month at place
/// `index` of `year`, and the days left over inside it. The search ends past
/// 2050, where the calendar ends.
pub open spec fn month_holding(table: Seq<RabByungMonthData>, year: int, index: int, days: int) -> (
    int,
    int,
    int,
)
    decreases (if year <= 2050 && 0 <= index <= 13 {
        (2051 - year) * 14 - index
    } else {
        0
    }),
{
    if year > 2050 || index < 0 || index > 12 || days < day_count_of(
        special_days_from(table, year, index, 0),
    ) {
        (year, index, days)
    } else {
        let (y, i) = place_after(year, index);
        month_holding(
            table,
            y,
            i,
            days - day_count_of(special_days_from(table, year, index, 0)),
        )
    }
}

/// The day of a month that is the `day`-th in order, going through the
/// month's special days from the `i`-th on: a day left out moves the later
/// days on by one, a day that comes twice moves them back by one, and its
/// second coming is given a minus sign.
pub open spec fn day_for_ordinal(special: Seq<isize>, i: int, day: int) -> int
    decreases special.len() - i,
{
    if i < 0 || i >= special.len() {
        day
    } else if special[i] < 0 {
        day_for_ordinal(
            special,
            i + 1,
            if day >= -special[i] {
                day + 1
            } else {
                day
            },
        )
    } else if special[i] > 0 {
        if day == special[i] + 1 {
            -(special[i] as int)
        } else {
            day_for_ordinal(
                special,
                i + 1,
                if day > special[i] + 1 {
                    day - 1
                } else {
                    day
                },
            )
        }
    } else {
        day_for_ordinal(special, i + 1, day)
    }
}

/// The place in order of the day of number `t` of a month, going through the
/// month's special days from the `i`-th on, before the one step more that the
/// second coming of a day takes.
pub open spec fn ordinal_for_day(special: Seq<isize>, i: int, t: int) -> int
    decreases special.len() - i,
{
    if i < 0 || i >= special.len() {
        t
    } else if special[i] < 0 {
        ordinal_for_day(
            special,
            i + 1,
            if t > -special[i] {
                t - 1
            } else {
                t
            },
        )
    } else if special[i] > 0 {
        ordinal_for_day(
            special,
            i + 1,
            if t > special[i] {
                t + 1
            } else {
                t
            },
        )
    } else {
        ordinal_for_day(special, i + 1, t)
    }
}

/// The numbers of the days of a month from day `from` on, in order: a day
/// left out does not occur, a day that comes twice occurs a second time with
/// a minus sign.
pub open spec fn day_numbers(special: Seq<isize>, from: int) -> Seq<int>
    decreases 31 - from,
{
    if from > 30 || from < 1 {
        Seq::empty()
    } else if miss_days_of(special).contains(from as isize) {
        day_numbers(special, from + 1)
    } else if leap_days_of(special).contains(from as isize) {
        seq![from, -from] + day_numbers(special, from + 1)
    } else {
        seq![from] + day_numbers(special, from + 1)
    }
}

/// Whether a month with the given special days has the day of number `day`,
/// where a negative number asks for the second coming of a day: the number
/// is from 1 to 30 with or without its sign, a day asked for a second time
/// comes twice, and a day asked for once is not left out.
pub open spec fn day_exists(special: Seq<isize>, day: int) -> bool {
    &&& day != 0
    &&& -30 <= day <= 30
    &&& day < 0 ==> leap_days_of(special).contains((-day) as isize)
    &&& day > 0 ==> !miss_days_of(special).contains(day as isize)
}

/// Why a number does not name a day of a month with the given special days,
/// if it does not. `month_text` is the month in writing.
pub open spec fn day_error(month_text: Seq<char>, special: Seq<isize>, day: int) -> Option<
    Seq<char>,
> {
    if day == 0 || day < -30 || day > 30 {
        Some("illegal day "@ + signed_decimal_text(day) + " in "@ + month_text)
    } else if day < 0 && !leap_days_of(special).contains((-day) as isize) {
        Some("illegal leap day "@ + decimal_text((-day) as nat) + " in "@ + month_text)
    } else if day > 0 && miss_days_of(special).contains(day as isize) {
        Some("illegal day "@ + decimal_text(day as nat) + " in "@ + month_text)
    } else {
        None
    }
}

/// A day has an error exactly when the month does not have it.
pub proof fn lemma_day_error_iff(month_text: Seq<char>, special: Seq<isize>, day: int)
    ensures
        day_error(month_text, special, day) is None <==> day_exists(special, day),
{
}

/// The name of a day of a Tibetan month by its number.
pub open spec fn day_name_text(day: int) -> Seq<char> {
    if day == 1 {
        "初一"@
    } else if day == 2 {
        "初二"@
    } else if day == 3 {
        "初三"@
    } else if day == 4 {
        "初四"@
    } else if day == 5 {
        "初五"@
    } else if day == 6 {
        "初六"@
    } else if day == 7 {
        "初七"@
    } else if day == 8 {
        "初八"@
    } else if day == 9 {
        "初九"@
    } else if day == 10 {
        "初十"@
    } else if day == 11 {
        "十一"@
    } else if day == 12 {
        "十二"@
    } else if day == 13 {
        "十三"@
    } else if day == 14 {
        "十四"@
    } else if day == 15 {
        "十五"@
    } else if day == 16 {
        "十六"@
    } else if day == 17 {
        "十七"@
    } else if day == 18 {
        "十八"@
    } else if day == 19 {
        "十九"@
    } else if day == 20 {
        "二十"@
    } else if day == 21 {
        "廿一"@
    } else if day == 22 {
        "廿二"@
    } else if day == 23 {
        "廿三"@
    } else if day == 24 {
        "廿四"@
    } else if day == 25 {
        "廿五"@
    } else if day == 26 {
        "廿六"@
    } else if day == 27 {
        "廿七"@
    } else if day == 28 {
        "廿八"@
    } else if day == 29 {
        "廿九"@
    } else {
        "三十"@
    }
}

/// The name of a day of a Tibetan month by its number.
pub fn day_name_str(day: usize) -> (s: &'static str)
    requires
        1 <= day <= 30,
    ensures
        s@ == day_name_text(day as int),
{
    if day == 1 {
        "初一"
    } else if day == 2 {
        "初二"
    } else if day == 3 {
        "初三"
    } else if day == 4 {
        "初四"
    } else if day == 5 {
        "初五"
    } else if day == 6 {
        "初六"
    } else if day == 7 {
        "初七"
    } else if day == 8 {
        "初八"
    } else if day == 9 {
        "初九"
    } else if day == 10 {
        "初十"
    } else if day == 11 {
        "十一"
    } else if day == 12 {
        "十二"
    } else if day == 13 {
        "十三"
    } else if day == 14 {
        "十四"
    } else if day == 15 {
        "十五"
    } else if day == 16 {
        "十六"
    } else if day == 17 {
        "十七"
    } else if day == 18 {
        "十八"
    } else if day == 19 {
        "十九"
    } else if day == 20 {
        "二十"
    } else if day == 21 {
        "廿一"
    } else if day == 22 {
        "廿二"
    } else if day == 23 {
        "廿三"
    } else if day == 24 {
        "廿四"
    } else if day == 25 {
        "廿五"
    } else if day == 26 {
        "廿六"
    } else if day == 27 {
        "廿七"
    } else if day == 28 {
        "廿八"
    } else if day == 29 {
        "廿九"
    } else {
        "三十"
    }
}

/// Whether `day` is among `days`.
pub fn contains_day(days: &Vec<isize>, day: isize) -> (found: bool)
    ensures
        found == days@.contains(day),
{
    let mut i: usize = 0;
    while i < days.len()
        invariant
            i <= days@.len(),
            forall|k: int| 0 <= k < i ==> days@[k] != day,
        decreases days@.len() - i,
    {
        if days[i] == day {
            return true;
        }
        i = i + 1;
    }
    false
}

impl RabByungYear {
    /// The first month of the year, for the years 1951 to 2050.
    pub fn get_first_month(&self) -> (m: RabByungMonth)
        requires
            self.wf(),
            1951 <= self.year() <= 2050,
        ensures
            m.wf(),
            m.in_year() == *self,
            m.month() == 1,
            !m.leap(),
    {
        match RabByungMonth::new(*self, 1) {
            Ok(m) => m,
            Err(_) => {
                proof {
                    assert(false);
                }
                RabByungMonth { year: *self, month: 1, leap: false, index_in_year: 0 }
            },
        }
    }

    /// The months of the year in order, the leap month after the month it
    /// doubles, for the years 1951 to 2050.
    pub fn get_months(&self) -> (months: Vec<RabByungMonth>)
        requires
            self.wf(),
            1951 <= self.year() <= 2050,
        ensures
            months@.len() == month_count(self.year()),
            forall|k: int|
                0 <= k < months@.len() ==> {
                    &&& (#[trigger] months@[k]).wf()
                    &&& months@[k].in_year() == *self
                    &&& months@[k].index() == k
                },
    {
        let mut months: Vec<RabByungMonth> = Vec::new();
        let leap_month: isize = self.get_leap_month() as isize;
        let mut i: isize = 1;
        while i < 13
            invariant
                self.wf(),
                1951 <= self.year() <= 2050,
                1 <= i <= 13,
                leap_month == leap_month_of_year(self.year()),
                0 <= leap_month <= 12,
                months@.len() == if 0 < leap_month < i {
                    i as int
                } else {
                    i - 1
                },
                forall|k: int|
                    0 <= k < months@.len() ==> {
                        &&& (#[trigger] months@[k]).wf()
                        &&& months@[k].in_year() == *self
                        &&& months@[k].index() == k
                    },
            decreases 13 - i,
        {
            match RabByungMonth::new(*self, i) {
                Ok(m) => {
                    months.push(m);
                },
                Err(_) => {
                    proof {
                        assert(false);
                    }
                },
            }
            if i == leap_month {
                match RabByungMonth::new(*self, -i) {
                    Ok(m) => {
                        months.push(m);
                    },
                    Err(_) => {
                        proof {
                            assert(false);
                        }
                    },
                }
            }
            i = i + 1;
        }
        months
    }
}

impl RabByungMonth {
    /// The number of days of the month, by `table`.
    pub fn get_day_count(&self, table: &[RabByungMonthData]) -> (days: usize)
        requires
            self.wf(),
            valid_table(table@),
        ensures
            days == day_count_of(special_days_from(table@, self.year(), self.index(), 0)),
            21 <= days <= 39,
    {
        proof {
            lemma_special_days_valid(table@, self.year(), self.index(), 0);
            lemma_day_count_bounds(special_days_from(table@, self.year(), self.index(), 0));
            special_days_from(table@, self.year(), self.index(), 0).lemma_filter_len(
                |d: isize| d < 0,
            );
        }
        30 + self.get_leap_days(table).len() - self.get_miss_days(table).len()
    }

    /// The first day of the month, by `table`; refused where the table leaves
    /// the first day out.
    pub fn get_first_day(&self, table: &[RabByungMonthData]) -> (r: Result<RabByungDay, String>)
        requires
            self.wf(),
            valid_table(table@),
        ensures
            r is Ok <==> !miss_days_of(
                special_days_from(table@, self.year(), self.index(), 0),
            ).contains(1),
            r is Ok ==> r->Ok_0.wf() && r->Ok_0.in_month() == *self && r->Ok_0.day() == 1
                && !r->Ok_0.leap(),
    {
        RabByungDay::new(*self, 1, table)
    }

    /// The days of the month in order, by `table`.
    pub fn get_days(&self, table: &[RabByungMonthData]) -> (days: Vec<RabByungDay>)
        requires
            self.wf(),
            valid_table(table@),
        ensures
            days@.len() == day_numbers(
                special_days_from(table@, self.year(), self.index(), 0),
                1,
            ).len(),
            forall|k: int|
                0 <= k < days@.len() ==> {
                    &&& (#[trigger] days@[k]).wf()
                    &&& days@[k].in_month() == *self
                    &&& days@[k].number() == day_numbers(
                        special_days_from(table@, self.year(), self.index(), 0),
                        1,
                    )[k]
                },
    {
        let ghost special = special_days_from(table@, self.year(), self.index(), 0);
        proof {
            lemma_special_days_valid(table@, self.year(), self.index(), 0);
        }
        let miss_days = self.get_miss_days(table);
        let leap_days = self.get_leap_days(table);
        let mut days: Vec<RabByungDay> = Vec::new();
        let mut i: isize = 30;
        while i >= 1
            invariant
                self.wf(),
                valid_table(table@),
                special == special_days_from(table@, self.year(), self.index(), 0),
                miss_days@ == miss_days_of(special),
                leap_days@ == leap_days_of(special),
                0 <= i <= 30,
                days@.len() == day_numbers(special, i + 1).len(),
                forall|k: int|
                    0 <= k < days@.len() ==> {
                        &&& (#[trigger] days@[k]).wf()
                        &&& days@[k].in_month() == *self
                        &&& days@[k].number() == day_numbers(special, i + 1)[days@.len() - 1 - k]
                    },
            decreases i,
        {
            let ghost rest = day_numbers(special, i + 1);
            let ghost before = days@;
            if !contains_day(&miss_days, i) {
                if contains_day(&leap_days, i) {
                    match RabByungDay::new(*self, -i, table) {
                        Ok(d) => {
                            days.push(d);
                        },
                        Err(_) => {
                            proof {
                                assert(false);
                            }
                        },
                    }
                }
                match RabByungDay::new(*self, i, table) {
                    Ok(d) => {
                        days.push(d);
                    },
                    Err(_) => {
                        proof {
                            assert(false);
                        }
                    },
                }
            }
            proof {
                let now = day_numbers(special, i as int);
                if !miss_days_of(special).contains(i) {
                    if leap_days_of(special).contains(i) {
                        assert(now =~= seq![i as int, -(i as int)] + rest);
                    } else {
                        assert(now =~= seq![i as int] + rest);
                    }
                }
            }
            i = i - 1;
        }
        let ghost numbers = day_numbers(special, 1);
        let n: usize = days.len();
        let mut ordered: Vec<RabByungDay> = Vec::new();
        let mut j: usize = 0;
        while j < n
            invariant
                j <= n,
                n == days@.len(),
                n == numbers.len(),
                ordered@.len() == j,
                forall|k: int|
                    0 <= k < n ==> {
                        &&& (#[trigger] days@[k]).wf()
                        &&& days@[k].in_month() == *self
                        &&& days@[k].number() == numbers[n - 1 - k]
                    },
                forall|k: int|
                    0 <= k < j ==> {
                        &&& (#[trigger] ordered@[k]).wf()
                        &&& ordered@[k].in_month() == *self
                        &&& ordered@[k].number() == numbers[k]
                    },
            decreases n - j,
        {
            ordered.push(days[n - 1 - j]);
            j = j + 1;
        }
        ordered
    }
}

impl RabByungDay {
    /// The day's month.
    pub closed spec fn in_month(&self) -> RabByungMonth {
        self.month
    }

    /// The number of the day, 1 to 30.
    pub closed spec fn day(&self) -> int {
        self.day as int
    }

    /// Whether the day is the second coming of its number.
    pub closed spec fn leap(&self) -> bool {
        self.leap
    }

    /// The number of the day, negative for the second coming of a day.
    pub open spec fn number(&self) -> int {
        if self.leap() {
            -self.day()
        } else {
            self.day()
        }
    }

    /// The day is of a month of the calendar and has a number from 1 to 30.
    pub closed spec fn wf(&self) -> bool {
        self.month.wf() && 1 <= self.day <= 30
    }

    /// What well-formedness says, for callers.
    pub proof fn lemma_wf(&self)
        requires
            self.wf(),
        ensures
            self.in_month().wf(),
            1 <= self.day() <= 30,
    {
    }

    /// The written form of a day: its name, after the word for "leap" for
    /// the second coming of a day.
    pub open spec fn name_of(day: int, leap: bool) -> Seq<char> {
        if leap {
            "闰"@ + day_name_text(day)
        } else {
            day_name_text(day)
        }
    }

    /// The written form of a month with its year.
    pub open spec fn month_text(month: RabByungMonth) -> Seq<char> {
        RabByungYear::name_of(month.in_year().cycle(), month.in_year().place())
            + RabByungMonth::name_of(month.month(), month.leap())
    }

    /// The day of number `day` of a month, the second coming of that day for
    /// a negative `day`, by `table`; refused, with the reason, where the month
    /// has no such day.
    pub fn new(month: RabByungMonth, day: isize, table: &[RabByungMonthData]) -> (r: Result<
        Self,
        String,
    >)
        requires
            month.wf(),
            valid_table(table@),
        ensures
            day_exists(special_days_from(table@, month.year(), month.index(), 0), day as int)
                <==> r is Ok,
            r is Err ==> Some(r->Err_0@) == day_error(
                Self::month_text(month),
                special_days_from(table@, month.year(), month.index(), 0),
                day as int,
            ),
            r is Ok ==> {
                &&& r->Ok_0.wf()
                &&& r->Ok_0.in_month() == month
                &&& r->Ok_0.number() == day
            },
    {
        if day == 0 || day < -30 || day > 30 {
            let mut message: String = String::from_str("illegal day ");
            append_signed_decimal(&mut message, day);
            message.append(" in ");
            let text = month.to_string();
            message.append(text.as_str());
            return Err(message);
        }
        proof {
            lemma_special_days_valid(table@, month.year(), month.index(), 0);
        }
        let leap: bool = day < 0;
        let d: isize = if day < 0 {
            -day
        } else {
            day
        };
        if leap && !contains_day(&month.get_leap_days(table), d) {
            let mut message: String = String::from_str("illegal leap day ");
            append_decimal(&mut message, d as usize);
            message.append(" in ");
            let text = month.to_string();
            message.append(text.as_str());
            return Err(message);
        }
        if !leap && contains_day(&month.get_miss_days(table), d) {
            let mut message: String = String::from_str("illegal day ");
            append_decimal(&mut message, d as usize);
            message.append(" in ");
            let text = month.to_string();
            message.append(text.as_str());
            return Err(message);
        }
        Ok(Self { month, day: d as usize, leap })
    }

    /// The day of a month of the year of a cycle that has the given element
    /// and animal, by `table`.
    pub fn from_element_zodiac(
        rab_byung_index: isize,
        element: RabByungElement,
        zodiac: Zodiac,
        month: isize,
        day: isize,
        table: &[RabByungMonthData],
    ) -> (r: Result<Self, String>)
        requires
            element.wf(),
            zodiac.wf(),
            valid_table(table@),
        ensures
            ({
                let place = RabByungYear::place_of(element@, zodiac@, 0);
                let year = 1024 + rab_byung_index * 60 + place;
                let m = if month < 0 {
                    -month
                } else {
                    month as int
                };
                let index = index_in_year_of(year, m, month < 0);
                &&& r is Ok <==> (place < 60 && 0 <= rab_byung_index <= 150 && month_error(
                    year,
                    month as int,
                ) is None && day_exists(special_days_from(table@, year, index, 0), day as int))
                &&& r is Ok ==> {
                    &&& r->Ok_0.wf()
                    &&& r->Ok_0.number() == day
                    &&& r->Ok_0.in_month().year() == year
                    &&& r->Ok_0.in_month().month() == m
                    &&& r->Ok_0.in_month().leap() == (month < 0)
                    &&& r->Ok_0.in_month().index() == index
                }
            }),
    {
        match RabByungMonth::from_element_zodiac(rab_byung_index, element, zodiac, month) {
            Ok(m) => Self::new(m, day, table),
            Err(e) => Err(e),
        }
    }

    /// The day of a month of a year of the civil calendar, by `table`.
    pub fn from_ymd(year: isize, month: isize, day: isize, table: &[RabByungMonthData]) -> (r:
        Result<Self, String>)
        requires
            -1_000_000_000 <= year <= 1_000_000_000,
            valid_table(table@),
        ensures
            ({
                let m = if month < 0 {
                    -month
                } else {
                    month as int
                };
                let index = index_in_year_of(year as int, m, month < 0);
                &&& r is Ok <==> (965 <= year <= 10083 && month_error(year as int, month as int)
                    is None && day_exists(
                    special_days_from(table@, year as int, index, 0),
                    day as int,
                ))
                &&& r is Ok ==> {
                    &&& r->Ok_0.wf()
                    &&& r->Ok_0.number() == day
                    &&& r->Ok_0.in_month().year() == year
                    &&& r->Ok_0.in_month().month() == m
                    &&& r->Ok_0.in_month().leap() == (month < 0)
                    &&& r->Ok_0.in_month().index() == index
                }
            }),
    {
        match RabByungMonth::from_ym(year, month) {
            Ok(m) => Self::new(m, day, table),
            Err(e) => Err(e),
        }
    }

    /// The day's month.
    pub fn get_rab_byung_month(&self) -> (m: RabByungMonth)
        requires
            self.wf(),
        ensures
            m.wf(),
            m == self.in_month(),
    {
        self.month
    }

    /// The number of the day's month, negative for a leap month.
    pub fn get_month(&self) -> (m: isize)
        requires
            self.wf(),
        ensures
            m == if self.in_month().leap() {
                -self.in_month().month()
            } else {
                self.in_month().month()
            },
    {
        self.month.get_month_with_leap()
    }

    /// The number of the day's year in the civil calendar.
    pub fn get_year(&self) -> (y: isize)
        requires
            self.wf(),
        ensures
            y == self.in_month().year(),
    {
        self.month.get_year()
    }

    /// The number of the day, 1 to 30.
    pub fn get_day(&self) -> (d: usize)
        ensures
            d == self.day(),
    {
        self.day
    }

    /// Whether the day is the second coming of its number.
    pub fn is_leap(&self) -> (leap: bool)
        ensures
            leap == self.leap(),
    {
        self.leap
    }

    /// The number of the day, negative for the second coming of a day.
    pub fn get_day_with_leap(&self) -> (d: isize)
        requires
            self.wf(),
        ensures
            d == self.number(),
    {
        if self.leap {
            -(self.day as isize)
        } else {
            self.day as isize
        }
    }

    /// The written form of the day.
    pub fn get_name(&self) -> (s: String)
        requires
            self.wf(),
        ensures
            s@ == Self::name_of(self.day(), self.leap()),
    {
        let name: &str = day_name_str(self.day);
        if self.leap {
            String::from_str("闰").concat(name)
        } else {
            String::from_str(name)
        }
    }

    /// The written form of the day with its month and year.
    pub fn to_string(&self) -> (s: String)
        requires
            self.wf(),
        ensures
            s@ == Self::month_text(self.in_month()) + Self::name_of(self.day(), self.leap()),
    {
        let name = self.get_name();
        self.month.to_string().concat(name.as_str())
    }
}

/// The number, in the unbroken count of days, of the day before the calendar
/// begins: 7 January 1951.
pub open spec fn epoch_day_number() -> int {
    day_number(1951, 1, 7)
}

/// The year 1950 has no leap month, so its twelfth month is at place 11.
pub proof fn lemma_first_year()
    ensures
        leap_month_of_year(1950) == 0,
        month_count(1950) == 12,
        first_place() == 11,
{
    reveal(leap_ordinal);
    assert(leap_ordinal(720) == 23415);
    assert(leap_ordinal(719) == 23383);
    lemma_leap_month_found(1950, 720, 1951, 4);
}

/// After the place `index` of a year comes the place that one month on
/// leads to.
pub proof fn lemma_one_month_on(year: int, index: int)
    requires
        0 <= index < month_count(year),
    ensures
        month_after(year, index, 1) == ({
            let (y, i) = place_after(year, index);
            (y, i + 1)
        }),
{
    let count = month_count(year);
    if index + 2 > count {
        assert(roll_forward(year + 1, index + 2 - count) == (year + 1, index + 2 - count));
    }
}

/// The place of a month in its year is below the number of months of the
/// year.
pub proof fn lemma_index_in_year(year: int, month: int, leap: bool)
    requires
        1 <= month <= 12,
        leap ==> month == leap_month_of_year(year),
    ensures
        0 <= index_in_year_of(year, month, leap) < month_count(year),
{
}

/// The place of a month in its year decides its number and whether it is the
/// leap month.
pub proof fn lemma_place_decides_month(year: int, a: int, a_leap: bool, b: int, b_leap: bool)
    requires
        1 <= a <= 12,
        1 <= b <= 12,
        a_leap ==> a == leap_month_of_year(year),
        b_leap ==> b == leap_month_of_year(year),
        index_in_year_of(year, a, a_leap) == index_in_year_of(year, b, b_leap),
    ensures
        a == b,
        a_leap == b_leap,
{
}

/// Whether `r` is what the day of number `number` in the count of days comes
/// to in the Tibetan calendar: the month is found by counting the days of the
/// months from the twelfth month of 1950, which begins on 8 January 1951, and
/// the day by its place in the month. There is no such day past the end of
/// 2050, nor where the counting comes to a day that the month does not have,
/// as it does for most days before the calendar begins.
pub open spec fn is_day_of_number(
    table: Seq<RabByungMonthData>,
    number: int,
    r: Result<RabByungDay, String>,
) -> bool {
    let days = number - day_number(1951, 1, 8);
    let (year, index, rest) = month_holding(table, 1950, first_place(), days);
    let special = special_days_from(table, year, index, 0);
    let day = day_for_ordinal(special, 0, rest + 1);
    &&& r is Ok <==> (year <= 2050 && day_exists(special, day))
    &&& r is Ok ==> {
        &&& r->Ok_0.wf()
        &&& r->Ok_0.in_month().year() == year
        &&& r->Ok_0.in_month().index() == index
        &&& r->Ok_0.number() == day
    }
}

impl RabByungDay {
    /// The number of a day in the unbroken count of days: the days of the
    /// months before its month, and its place among the days of its month,
    /// counted from the day before the calendar begins.
    pub open spec fn solar_number(&self, table: Seq<RabByungMonthData>) -> int {
        epoch_day_number() + days_before(table, self.in_month().year(), self.in_month().index())
            + ordinal_for_day(
            special_days_from(table, self.in_month().year(), self.in_month().index(), 0),
            0,
            self.day(),
        ) + if self.leap() {
            1int
        } else {
            0int
        }
    }

    /// The Tibetan day of a day of the civil calendar, by `table`.
    pub fn from_solar_day(solar_day: SolarDay, table: &[RabByungMonthData]) -> (r: Result<
        Self,
        String,
    >)
        requires
            solar_day.wf(),
            valid_table(table@),
        ensures
            is_day_of_number(table@, solar_day.number(), r),
    {
        proof {
            crate::solar::lemma_day_number_ends();
        }
        let start: SolarDay = SolarDay::from_ymd(1951, 1, 8);
        let mut days: isize = solar_day.subtract(start);
        let mut m: RabByungMonth = match RabByungMonth::from_ym(1950, 12) {
            Ok(m) => m,
            Err(e) => {
                proof {
                    assert(false);
                }
                return Err(e);
            },
        };
        let mut count: isize = m.get_day_count(table) as isize;
        let ghost days0 = days as int;
        proof {
            m.lemma_wf();
            lemma_first_year();
        }
        while days >= count
            invariant
                m.wf(),
                valid_table(table@),
                1950 <= m.year() <= 2050,
                count == day_count_of(special_days_from(table@, m.year(), m.index(), 0)),
                21 <= count <= 39,
                -6_000_000 <= days <= 6_000_000,
                days0 == solar_day.number() - day_number(1951, 1, 8),
                m.year() == 1950 ==> m.index() == 11,
                month_holding(table@, 1950, first_place(), days0) == month_holding(
                    table@,
                    m.year(),
                    m.index(),
                    days as int,
                ),
            decreases (2051 - m.year()) * 14 - m.index(),
        {
            proof {
                m.lemma_wf();
                lemma_first_year();
                lemma_index_in_year(m.year(), m.month(), m.leap());
                lemma_one_month_on(m.year(), m.index());
            }
            let ghost (y, i) = place_after(m.year(), m.index());
            proof {
                assert(month_holding(table@, m.year(), m.index(), days as int) == month_holding(
                    table@,
                    y,
                    i,
                    days - count,
                ));
            }
            days = days - count;
            match m.next(1) {
                Ok(following) => {
                    m = following;
                },
                Err(e) => {
                    proof {
                        assert(month_error(y, month_at_place(y, i + 1)) is Some);
                        lemma_month_error_means_end(y, i + 1);
                        assert(month_holding(table@, y, i, days as int) == (y, i, days as int));
                    }
                    return Err(e);
                },
            }
            proof {
                m.lemma_wf();
            }
            count = m.get_day_count(table) as isize;
        }
        proof {
            m.lemma_wf();
            lemma_index_in_year(m.year(), m.month(), m.leap());
            lemma_special_days_valid(table@, m.year(), m.index(), 0);
        }
        let special = m.get_special_days(table);
        let mut day: isize = days + 1;
        let mut k: usize = 0;
        let mut settled: bool = false;
        while k < special.len() && !settled
            invariant
                k <= special@.len(),
                valid_special_days(special@),
                -6_000_000 <= days <= 6_000_000,
                !settled ==> days + 1 - k <= day <= days + 1 + k,
                settled ==> -30 <= day <= -1,
                !settled ==> day_for_ordinal(special@, 0, days + 1) == day_for_ordinal(
                    special@,
                    k as int,
                    day as int,
                ),
                settled ==> day_for_ordinal(special@, 0, days + 1) == day,
            decreases special@.len() - k + if settled {
                0int
            } else {
                1int
            },
        {
            let d: isize = special[k];
            if d < 0 {
                if day >= -d {
                    day = day + 1;
                }
                k = k + 1;
            } else if d > 0 {
                if day == d + 1 {
                    day = -d;
                    settled = true;
                } else {
                    if day > d + 1 {
                        day = day - 1;
                    }
                    k = k + 1;
                }
            } else {
                k = k + 1;
            }
        }
        Self::new(m, day, table)
    }

    /// The day of the civil calendar of the Tibetan day, by `table`.
    pub fn get_solar_day(&self, table: &[RabByungMonthData]) -> (solar_day: SolarDay)
        requires
            self.wf(),
            valid_table(table@),
        ensures
            solar_day.wf(),
            solar_day.number() == self.solar_number(table@),
    {
        proof {
            crate::solar::lemma_day_number_ends();
            self.month.lemma_wf();
        }
        let mut m: RabByungMonth = match RabByungMonth::from_ym(1950, 12) {
            Ok(m) => m,
            Err(_) => {
                proof {
                    assert(false);
                }
                self.month
            },
        };
        let target_year: isize = self.month.get_year();
        let target_index: usize = self.month.get_index_in_year();
        let mut n: isize = 0;
        proof {
            m.lemma_wf();
            lemma_first_year();
            lemma_index_in_year(self.month.year(), self.month.month(), self.month.leap());
        }
        while !(m.get_year() == target_year && m.get_index_in_year() == target_index)
            invariant
                m.wf(),
                self.wf(),
                valid_table(table@),
                target_year == self.in_month().year(),
                target_index == self.in_month().index(),
                1950 <= target_year <= 2050,
                0 <= target_index < month_count(target_year as int),
                target_year == 1950 ==> target_index == first_place(),
                1950 <= m.year() <= target_year,
                m.year() == 1950 ==> m.index() == first_place(),
                m.year() == target_year ==> m.index() <= target_index,
                n == days_before(table@, m.year(), m.index()),
                0 <= n <= 39 * ((m.year() - 1950) * 14 + m.index()),
            decreases (target_year - m.year()) * 14 + 13 - m.index(),
        {
            proof {
                m.lemma_wf();
                lemma_first_year();
                lemma_index_in_year(m.year(), m.month(), m.leap());
                lemma_one_month_on(m.year(), m.index());
                lemma_special_days_valid(table@, m.year(), m.index(), 0);
                lemma_day_count_bounds(special_days_from(table@, m.year(), m.index(), 0));
            }
            n = n + m.get_day_count(table) as isize;
            let ghost (y, i) = place_after(m.year(), m.index());
            proof {
                assert(place_before(y, i) == (m.year(), m.index()));
            }
            match m.next(1) {
                Ok(following) => {
                    m = following;
                },
                Err(_) => {
                    proof {
                        assert(false);
                    }
                },
            }
            proof {
                m.lemma_wf();
            }
        }
        proof {
            lemma_special_days_valid(table@, m.year(), m.index(), 0);
        }
        let special = self.month.get_special_days(table);
        let mut t: isize = self.day as isize;
        let mut k: usize = 0;
        while k < special.len()
            invariant
                k <= special@.len(),
                valid_special_days(special@),
                1 <= t <= 30 + k,
                ordinal_for_day(special@, 0, self.day()) == ordinal_for_day(
                    special@,
                    k as int,
                    t as int,
                ),
            decreases special@.len() - k,
        {
            let d: isize = special[k];
            if d < 0 {
                if t > -d {
                    t = t - 1;
                }
            } else if d > 0 {
                if t > d {
                    t = t + 1;
                }
            }
            k = k + 1;
        }
        if self.leap {
            t = t + 1;
        }
        SolarDay::from_ymd(1951, 1, 7).next(n + t)
    }

    /// The day `n` days on, back for a negative `n`, by `table`.
    pub fn next(&self, n: isize, table: &[RabByungMonthData]) -> (r: Result<Self, String>)
        requires
            self.wf(),
            valid_table(table@),
            -700_000 <= n <= 1_000_000,
        ensures
            n == 0 ==> r == Ok::<Self, String>(*self),
            n != 0 ==> is_day_of_number(table@, self.solar_number(table@) + n, r),
    {
        if n == 0 {
            Ok(*self)
        } else {
            proof {
                crate::solar::lemma_day_number_ends();
                lemma_solar_number_bounds(*self, table@);
            }
            Self::from_solar_day(self.get_solar_day(table).next(n), table)
        }
    }

    /// The number of days from `other` to this day, by `table`.
    pub fn subtract(&self, other: Self, table: &[RabByungMonthData]) -> (days: isize)
        requires
            self.wf(),
            other.wf(),
            valid_table(table@),
        ensures
            days == self.solar_number(table@) - other.solar_number(table@),
    {
        self.get_solar_day(table).subtract(other.get_solar_day(table))
    }
}

impl SolarDay {
    /// The Tibetan day of the day, by `table`.
    pub fn get_rab_byung_day(&self, table: &[RabByungMonthData]) -> (r: Result<RabByungDay, String>)
        requires
            self.wf(),
            valid_table(table@),
        ensures
            is_day_of_number(table@, self.number(), r),
    {
        RabByungDay::from_solar_day(*self, table)
    }
}

/// A place that the calendar has no month for lies past the end of 2050.
proof fn lemma_month_error_means_end(year: int, place: int)
    requires
        1950 <= year <= 2051,
        1 <= place <= month_count(year),
        year == 1950 ==> place == 12,
        month_error(year, month_at_place(year, place)) is Some,
    ensures
        year > 2050,
{
    lemma_first_year();
}

/// The number of a Tibetan day in the count of days lies between 7 January
/// 1951 and the end of 2092.
proof fn lemma_solar_number_bounds(day: RabByungDay, table: Seq<RabByungMonthData>)
    requires
        day.wf(),
        valid_table(table),
    ensures
        epoch_day_number() <= day.solar_number(table) <= epoch_day_number() + 56_000,
{
    day.in_month().lemma_wf();
    let year = day.in_month().year();
    let index = day.in_month().index();
    lemma_first_year();
    lemma_index_in_year(year, day.in_month().month(), day.in_month().leap());
    lemma_days_before_bounds(table, year, index);
    lemma_special_days_valid(table, year, index, 0);
    lemma_ordinal_bounds(special_days_from(table, year, index, 0), 0, day.day());
    day.lemma_wf();
}

/// The days before a month are at most 39 for each month since the calendar
/// began.
proof fn lemma_days_before_bounds(table: Seq<RabByungMonthData>, year: int, index: int)
    requires
        valid_table(table),
        1950 <= year <= 2050,
        0 <= index <= 12,
    ensures
        0 <= days_before(table, year, index) <= 39 * ((year - 1950) * 14 + index),
    decreases (year - 1950) * 14 + index,
{
    if !(year == 1950 && index <= first_place()) {
        let (y, i) = place_before(year, index);
        lemma_special_days_valid(table, y, i, 0);
        lemma_day_count_bounds(special_days_from(table, y, i, 0));
        lemma_days_before_bounds(table, y, i);
    }
}

/// The place of a day among the days of its month is within the special days
/// of its number.
proof fn lemma_ordinal_bounds(special: Seq<isize>, i: int, t: int)
    requires
        valid_special_days(special),
        0 <= i <= special.len(),
        1 <= t,
    ensures
        1 <= ordinal_for_day(special, i, t) <= t + (special.len() - i),
    decreases special.len() - i,
{
    if i < special.len() {
        if special[i] < 0 {
            lemma_ordinal_bounds(
                special,
                i + 1,
                if t > -special[i] {
                    t - 1
                } else {
                    t
                },
            );
        } else if special[i] > 0 {
            lemma_ordinal_bounds(
                special,
                i + 1,
                if t > special[i] {
                    t + 1
                } else {
                    t
                },
            );
        } else {
            lemma_ordinal_bounds(special, i + 1, t);
        }
    }
}

} // verus!
