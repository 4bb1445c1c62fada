//! The historical fit tables: for each span of history, the instant at which
//! a straight-line model of the new moons or of the solar terms starts, and
//! the period of that model.
//!
//! Times are whole numbers throughout: an instant of the Julian-day scale is
//! held in micro-days, a period in nano-days, so that every constant of the
//! tables is exact.

use vstd::prelude::*;

verus! {

/// Micro-days in a day.
pub const MICRO_PER_DAY: i64 = 1_000_000;

/// Nano-days in a micro-day.
pub const NANO_PER_MICRO: i64 = 1_000;

/// Nano-days in a day.
pub const NANO_PER_DAY: i64 = 1_000_000_000;

/// What is being located: a solar term or a new moon.
#[derive(Clone, Copy, Debug, PartialEq, Eq, Structural)]
pub enum CalculationType {
    /// A solar term.
    Qi,
    /// A new moon.
    Shuo,
}

/// One span of a fit table.
#[derive(Clone, Copy, Debug, PartialEq, Eq, Structural)]
pub struct FitParameter {
    /// Julian day at which the span starts, in micro-days.
    pub start_micro_days: i64,
    /// Period of the events in the span, in nano-days.
    pub period_nano_days: i64,
}

/// The largest Julian day, in micro-days, that a fit table may hold.
pub open spec fn max_table_micro_days() -> int {
    4_000_000_000_000
}

/// A fit table is usable when it has a span, its spans start in strictly
/// increasing order within the first four million days, and every period is
/// positive and below a thousand days.
pub open spec fn valid_fit_table(table: Seq<FitParameter>) -> bool {
    &&& table.len() >= 1
    &&& forall|i: int|
        0 <= i < table.len() ==> 0 <= (#[trigger] table[i]).start_micro_days
            <= max_table_micro_days()
    &&& forall|i: int|
        0 <= i < table.len() ==> 0 < (#[trigger] table[i]).period_nano_days < 1_000_000_000_000
    &&& forall|i: int, j: int|
        0 <= i < j < table.len() ==> (#[trigger] table[i]).start_micro_days < (
        #[trigger] table[j]).start_micro_days
}

/// Half the nominal spacing of the events, in micro-days: 7 days for solar
/// terms, 14 days for new moons. A query is moved forward by this much before
/// it is matched against a table.
pub open spec fn period_constant(kind: CalculationType) -> int {
    match kind {
        CalculationType::Qi => 7_000_000,
        CalculationType::Shuo => 14_000_000,
    }
}

/// Half the nominal spacing of the events of `kind`, in micro-days.
pub fn get_period_constant(kind: CalculationType) -> (pc: i64)
    ensures
        pc == period_constant(kind),
{
    match kind {
        CalculationType::Qi => 7_000_000,
        CalculationType::Shuo => 14_000_000,
    }
}

/// Checks that a table is usable.
pub fn is_valid_fit_table(table: &[FitParameter]) -> (ok: bool)
    ensures
        ok == valid_fit_table(table@),
{
    let n: usize = table.len();
    if n == 0 {
        return false;
    }
    let mut i: usize = 0;
    while i < n
        invariant
            n == table@.len(),
            i <= n,
            forall|k: int|
                0 <= k < i ==> 0 <= (#[trigger] table@[k]).start_micro_days
                    <= max_table_micro_days(),
            forall|k: int|
                0 <= k < i ==> 0 < (#[trigger] table@[k]).period_nano_days < 1_000_000_000_000,
            forall|k: int|
                0 < k < i ==> table@[k - 1].start_micro_days < (
                #[trigger] table@[k]).start_micro_days,
        decreases n - i,
    {
        let p: FitParameter = table[i];
        if p.start_micro_days < 0 || p.start_micro_days > 4_000_000_000_000 {
            return false;
        }
        if p.period_nano_days <= 0 || p.period_nano_days >= 1_000_000_000_000 {
            return false;
        }
        if i > 0 && table[i - 1].start_micro_days >= p.start_micro_days {
            assert(!valid_fit_table(table@)) by {
                if valid_fit_table(table@) {
                    assert(table@[i - 1].start_micro_days < table@[i as int].start_micro_days);
                }
            }
            return false;
        }
        i = i + 1;
    }
    proof {
        lemma_adjacent_increasing(table@);
    }
    true
}

/// Starts that increase from each span to the next increase over any distance.
pub proof fn lemma_adjacent_increasing(table: Seq<FitParameter>)
    requires
        forall|k: int|
            0 < k < table.len() ==> table[k - 1].start_micro_days < (
            #[trigger] table[k]).start_micro_days,
    ensures
        forall|i: int, j: int|
            0 <= i < j < table.len() ==> (#[trigger] table[i]).start_micro_days < (
            #[trigger] table[j]).start_micro_days,
{
    assert forall|i: int, j: int| 0 <= i < j < table.len() implies (
    #[trigger] table[i]).start_micro_days < (#[trigger] table[j]).start_micro_days by {
        lemma_increasing_between(table, i, j);
    }
}

proof fn lemma_increasing_between(table: Seq<FitParameter>, i: int, j: int)
    requires
        forall|k: int|
            0 < k < table.len() ==> table[k - 1].start_micro_days < (
            #[trigger] table[k]).start_micro_days,
        0 <= i < j < table.len(),
    ensures
        table[i].start_micro_days < table[j].start_micro_days,
    decreases j - i,
{
    if j - 1 > i {
        lemma_increasing_between(table, i, j - 1);
    }
    assert(table[j - 1].start_micro_days < table[j].start_micro_days);
}

/// The fit table of the new moons.
pub open spec fn shuo_fit_table() -> Seq<FitParameter> {
    seq![
        FitParameter { start_micro_days: 1457698231017, period_nano_days: 29530671660 },
        FitParameter { start_micro_days: 1546082512234, period_nano_days: 29530851060 },
        FitParameter { start_micro_days: 1640640735300, period_nano_days: 29530600000 },
        FitParameter { start_micro_days: 1642472151543, period_nano_days: 29530854390 },
        FitParameter { start_micro_days: 1683430509300, period_nano_days: 29530861480 },
        FitParameter { start_micro_days: 1752148041079, period_nano_days: 29530850970 },
        FitParameter { start_micro_days: 1807665420323, period_nano_days: 29530598510 },
        FitParameter { start_micro_days: 1883618114100, period_nano_days: 29530600000 },
        FitParameter { start_micro_days: 1907360704700, period_nano_days: 29530600000 },
        FitParameter { start_micro_days: 1936596224900, period_nano_days: 29530600000 },
        FitParameter { start_micro_days: 1939135675300, period_nano_days: 29530600000 },
    ]
}

/// The fit table of the new moons: 11 spans.
pub fn shuo_fit_parameters() -> (table: Vec<FitParameter>)
    ensures
        table@ == shuo_fit_table(),
        valid_fit_table(table@),
{
    let table = vec![
        FitParameter { start_micro_days: 1457698231017, period_nano_days: 29530671660 },
        FitParameter { start_micro_days: 1546082512234, period_nano_days: 29530851060 },
        FitParameter { start_micro_days: 1640640735300, period_nano_days: 29530600000 },
        FitParameter { start_micro_days: 1642472151543, period_nano_days: 29530854390 },
        FitParameter { start_micro_days: 1683430509300, period_nano_days: 29530861480 },
        FitParameter { start_micro_days: 1752148041079, period_nano_days: 29530850970 },
        FitParameter { start_micro_days: 1807665420323, period_nano_days: 29530598510 },
        FitParameter { start_micro_days: 1883618114100, period_nano_days: 29530600000 },
        FitParameter { start_micro_days: 1907360704700, period_nano_days: 29530600000 },
        FitParameter { start_micro_days: 1936596224900, period_nano_days: 29530600000 },
        FitParameter { start_micro_days: 1939135675300, period_nano_days: 29530600000 },
    ];
    assert(table@ =~= shuo_fit_table());
    proof {
        lemma_adjacent_increasing(table@);
    }
    table
}

/// The fit table of the solar terms.
pub open spec fn qi_fit_table() -> Seq<FitParameter> {
    seq![
        FitParameter { start_micro_days: 1640650479938, period_nano_days: 15218425000 },
        FitParameter { start_micro_days: 1642476703182, period_nano_days: 15218749960 },
        FitParameter { start_micro_days: 1683430515601, period_nano_days: 15218750011 },
        FitParameter { start_micro_days: 1752157640664, period_nano_days: 15218749978 },
        FitParameter { start_micro_days: 1807675003759, period_nano_days: 15218620279 },
        FitParameter { start_micro_days: 1883627765182, period_nano_days: 15218612292 },
        FitParameter { start_micro_days: 1907369128100, period_nano_days: 15218449176 },
        FitParameter { start_micro_days: 1936603140413, period_nano_days: 15218425000 },
        FitParameter { start_micro_days: 1939145524180, period_nano_days: 15218466998 },
        FitParameter { start_micro_days: 1947180798300, period_nano_days: 15218524844 },
        FitParameter { start_micro_days: 1964362041824, period_nano_days: 15218533526 },
        FitParameter { start_micro_days: 1987372340971, period_nano_days: 15218513908 },
        FitParameter { start_micro_days: 1999653819126, period_nano_days: 15218530782 },
        FitParameter { start_micro_days: 2007445469786, period_nano_days: 15218535181 },
        FitParameter { start_micro_days: 2021324917146, period_nano_days: 15218526248 },
        FitParameter { start_micro_days: 2047257232342, period_nano_days: 15218519654 },
        FitParameter { start_micro_days: 2070282898213, period_nano_days: 15218425000 },
        FitParameter { start_micro_days: 2073204872850, period_nano_days: 15218515221 },
        FitParameter { start_micro_days: 2080144500926, period_nano_days: 15218530782 },
        FitParameter { start_micro_days: 2086703688963, period_nano_days: 15218523776 },
        FitParameter { start_micro_days: 2110033182763, period_nano_days: 15218425000 },
        FitParameter { start_micro_days: 2111190300888, period_nano_days: 15218425000 },
        FitParameter { start_micro_days: 2113731271005, period_nano_days: 15218515671 },
        FitParameter { start_micro_days: 2120670840263, period_nano_days: 15218425000 },
        FitParameter { start_micro_days: 2123973309063, period_nano_days: 15218425000 },
        FitParameter { start_micro_days: 2125068997336, period_nano_days: 15218477932 },
        FitParameter { start_micro_days: 2136026312633, period_nano_days: 15218472436 },
        FitParameter { start_micro_days: 2156099495538, period_nano_days: 15218425000 },
        FitParameter { start_micro_days: 2159021324663, period_nano_days: 15218425000 },
        FitParameter { start_micro_days: 2162308575254, period_nano_days: 15218461742 },
        FitParameter { start_micro_days: 2178485706538, period_nano_days: 15218425000 },
        FitParameter { start_micro_days: 2178759662849, period_nano_days: 15218445786 },
        FitParameter { start_micro_days: 2185334020800, period_nano_days: 15218425000 },
        FitParameter { start_micro_days: 2187525481425, period_nano_days: 15218425000 },
        FitParameter { start_micro_days: 2188621191481, period_nano_days: 15218437494 },
    ]
}

/// The fit table of the solar terms: 35 spans.
pub fn qi_fit_parameters() -> (table: Vec<FitParameter>)
    ensures
        table@ == qi_fit_table(),
        valid_fit_table(table@),
{
    let table = vec![
        FitParameter { start_micro_days: 1640650479938, period_nano_days: 15218425000 },
        FitParameter { start_micro_days: 1642476703182, period_nano_days: 15218749960 },
        FitParameter { start_micro_days: 1683430515601, period_nano_days: 15218750011 },
        FitParameter { start_micro_days: 1752157640664, period_nano_days: 15218749978 },
        FitParameter { start_micro_days: 1807675003759, period_nano_days: 15218620279 },
        FitParameter { start_micro_days: 1883627765182, period_nano_days: 15218612292 },
        FitParameter { start_micro_days: 1907369128100, period_nano_days: 15218449176 },
        FitParameter { start_micro_days: 1936603140413, period_nano_days: 15218425000 },
        FitParameter { start_micro_days: 1939145524180, period_nano_days: 15218466998 },
        FitParameter { start_micro_days: 1947180798300, period_nano_days: 15218524844 },
        FitParameter { start_micro_days: 1964362041824, period_nano_days: 15218533526 },
        FitParameter { start_micro_days: 1987372340971, period_nano_days: 15218513908 },
        FitParameter { start_micro_days: 1999653819126, period_nano_days: 15218530782 },
        FitParameter { start_micro_days: 2007445469786, period_nano_days: 15218535181 },
        FitParameter { start_micro_days: 2021324917146, period_nano_days: 15218526248 },
        FitParameter { start_micro_days: 2047257232342, period_nano_days: 15218519654 },
        FitParameter { start_micro_days: 2070282898213, period_nano_days: 15218425000 },
        FitParameter { start_micro_days: 2073204872850, period_nano_days: 15218515221 },
        FitParameter { start_micro_days: 2080144500926, period_nano_days: 15218530782 },
        FitParameter { start_micro_days: 2086703688963, period_nano_days: 15218523776 },
        FitParameter { start_micro_days: 2110033182763, period_nano_days: 15218425000 },
        FitParameter { start_micro_days: 2111190300888, period_nano_days: 15218425000 },
        FitParameter { start_micro_days: 2113731271005, period_nano_days: 15218515671 },
        FitParameter { start_micro_days: 2120670840263, period_nano_days: 15218425000 },
        FitParameter { start_micro_days: 2123973309063, period_nano_days: 15218425000 },
        FitParameter { start_micro_days: 2125068997336, period_nano_days: 15218477932 },
        FitParameter { start_micro_days: 2136026312633, period_nano_days: 15218472436 },
        FitParameter { start_micro_days: 2156099495538, period_nano_days: 15218425000 },
        FitParameter { start_micro_days: 2159021324663, period_nano_days: 15218425000 },
        FitParameter { start_micro_days: 2162308575254, period_nano_days: 15218461742 },
        FitParameter { start_micro_days: 2178485706538, period_nano_days: 15218425000 },
        FitParameter { start_micro_days: 2178759662849, period_nano_days: 15218445786 },
        FitParameter { start_micro_days: 2185334020800, period_nano_days: 15218425000 },
        FitParameter { start_micro_days: 2187525481425, period_nano_days: 15218425000 },
        FitParameter { start_micro_days: 2188621191481, period_nano_days: 15218437494 },
    ];
    assert(table@ =~= qi_fit_table());
    proof {
        lemma_adjacent_increasing(table@);
    }
    table
}

} // verus!
