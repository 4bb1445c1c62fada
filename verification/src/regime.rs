//! Which of the three ways of calculation a query falls to, and the two of
//! them that are settled by the tables: the flat spans of early history, and
//! the one-day corrections of the span that follows them.
//!
//! A query is a Julian day in micro-days. An event found is a count of
//! half-days from the epoch J2000, so that both noon and midnight are whole.

use vstd::prelude::*;
use crate::codec::{decode, decoded};
use crate::fit::{
    valid_fit_table, period_constant, get_period_constant, CalculationType, FitParameter,
};

verus! {

/// The epoch J2000 as a Julian day, in micro-days.
pub const J2000_MICRO_DAYS: i64 = 2_451_545_000_000;

/// The epoch J2000 as a Julian day, in half-days.
pub const J2000_HALF_DAYS: i64 = 4_903_090;

/// Noon of 1 January 1960 as a Julian day, in micro-days: from here on every
/// query is solved directly.
pub const MODERN_CUTOFF_MICRO_DAYS: i64 = 2_436_935_000_000;

/// The midnight, in half-days of the Julian day scale, that ends Julian day
/// 1683460: a flat span that gives this instant is known to be one day early.
pub const ANOMALOUS_HALF_DAYS: i64 = 3_366_921;

/// Nominal spacing of the new moons, in micro-days.
pub const LUNAR_MONTH_MICRO_DAYS: i64 = 29_530_600;

/// Length of the tropical year, in micro-days.
pub const TROPICAL_YEAR_MICRO_DAYS: i64 = 365_242_200;

/// The way a query is calculated.
#[derive(Clone, Copy, Debug, PartialEq, Eq, Structural)]
pub enum CalculationMethod {
    /// Solved directly from the orbital series.
    HighPrecision,
    /// Read off the flat span of the fit table that holds the query.
    FlatPhase,
    /// Solved, then corrected by a symbol of the correction table.
    FixedPhase,
}

/// Where the flat spans begin for queries of `kind`, as a Julian day in
/// micro-days.
pub open spec fn flat_start(table: Seq<FitParameter>, kind: CalculationType) -> int {
    table[0].start_micro_days - period_constant(kind)
}

/// Where the flat spans end and the corrected span begins.
pub open spec fn fixed_start(table: Seq<FitParameter>, kind: CalculationType) -> int {
    table[table.len() - 1].start_micro_days - period_constant(kind)
}

/// The way the query `jd` is calculated: directly before the table begins and
/// from the modern cutoff on, by the flat spans inside the table, by
/// correction between the table's last span and the modern cutoff.
pub open spec fn method_for(
    table: Seq<FitParameter>,
    kind: CalculationType,
    jd: int,
) -> CalculationMethod {
    if jd < flat_start(table, kind) || jd >= MODERN_CUTOFF_MICRO_DAYS {
        CalculationMethod::HighPrecision
    } else if jd < fixed_start(table, kind) {
        CalculationMethod::FlatPhase
    } else {
        CalculationMethod::FixedPhase
    }
}

/// Chooses the way of calculation for the query `jd`, a Julian day in
/// micro-days.
pub fn determine_calculation_method(
    jd: i64,
    table: &[FitParameter],
    kind: CalculationType,
) -> (method: CalculationMethod)
    requires
        valid_fit_table(table@),
    ensures
        method == method_for(table@, kind, jd as int),
        method == CalculationMethod::HighPrecision <==> (jd < flat_start(table@, kind) || jd
            >= MODERN_CUTOFF_MICRO_DAYS),
        method == CalculationMethod::FlatPhase <==> (flat_start(table@, kind) <= jd
            < MODERN_CUTOFF_MICRO_DAYS && jd < fixed_start(table@, kind)),
        method == CalculationMethod::FixedPhase <==> (fixed_start(table@, kind) <= jd
            < MODERN_CUTOFF_MICRO_DAYS),
{
    let pc: i64 = get_period_constant(kind);
    let f1: i64 = table[0].start_micro_days - pc;
    let f2: i64 = table[table.len() - 1].start_micro_days - pc;
    proof {
        if table@.len() > 1 {
            assert(table@[0].start_micro_days < table@[table@.len() - 1].start_micro_days);
        }
    }
    if jd < f1 || jd >= MODERN_CUTOFF_MICRO_DAYS {
        CalculationMethod::HighPrecision
    } else if jd < f2 {
        CalculationMethod::FlatPhase
    } else {
        CalculationMethod::FixedPhase
    }
}

/// Every query falls to exactly one way of calculation: the three ranges of
/// the Julian day cover it and no two of them meet.
pub proof fn lemma_one_method(table: Seq<FitParameter>, kind: CalculationType, jd: int)
    requires
        valid_fit_table(table),
    ensures
        ({
            let high = jd < flat_start(table, kind) || jd >= MODERN_CUTOFF_MICRO_DAYS;
            let flat = flat_start(table, kind) <= jd < MODERN_CUTOFF_MICRO_DAYS && jd
                < fixed_start(table, kind);
            let fixed = fixed_start(table, kind) <= jd < MODERN_CUTOFF_MICRO_DAYS;
            &&& high || flat || fixed
            &&& !(high && flat)
            &&& !(high && fixed)
            &&& !(flat && fixed)
        }),
{
    if table.len() > 1 {
        assert(table[0].start_micro_days < table[table.len() - 1].start_micro_days);
    }
}

/// The last span among the first `n + 1` that starts at or before `x`; the
/// first span if none does.
pub open spec fn segment_upto(table: Seq<FitParameter>, x: int, n: int) -> int
    decreases n,
{
    if n <= 0 {
        0
    } else if table[n].start_micro_days <= x {
        n
    } else {
        segment_upto(table, x, n - 1)
    }
}

/// The span of the table that holds the instant `x`: the last one that starts
/// at or before `x`, the first one if none does.
pub open spec fn segment_index(table: Seq<FitParameter>, x: int) -> int {
    segment_upto(table, x, table.len() - 1)
}

/// In a table whose starts increase, the span found is the one whose start is
/// at or before `x` and whose successor, if any, starts after `x`.
pub proof fn lemma_segment_bounds(table: Seq<FitParameter>, x: int, n: int)
    requires
        valid_fit_table(table),
        0 <= n < table.len(),
    ensures
        0 <= segment_upto(table, x, n) <= n,
        segment_upto(table, x, n) > 0 ==> table[segment_upto(table, x, n)].start_micro_days <= x,
        forall|k: int| segment_upto(table, x, n) < k <= n ==> x < table[k].start_micro_days,
    decreases n,
{
    if n > 0 && table[n].start_micro_days > x {
        lemma_segment_bounds(table, x, n - 1);
    }
}

/// A span that starts at or before `x` while its successor starts after `x`
/// or does not exist is the span found.
pub proof fn lemma_segment_unique(table: Seq<FitParameter>, x: int, i: int)
    requires
        valid_fit_table(table),
        0 <= i < table.len(),
        i == 0 || table[i].start_micro_days <= x,
        i + 1 == table.len() || x < table[i + 1].start_micro_days,
    ensures
        segment_index(table, x) == i,
{
    let n = table.len() - 1;
    lemma_segment_bounds(table, x, n);
    let s = segment_index(table, x);
    if s < i {
        assert(x < table[i].start_micro_days);
    } else if s > i {
        assert(table[i + 1].start_micro_days <= table[s].start_micro_days) by {
            if i + 1 < s {
                assert(table[i + 1].start_micro_days < table[s].start_micro_days);
            }
        }
    }
}

/// Finds the span of the table that holds the instant `x`, a Julian day in
/// micro-days.
pub fn find_segment(table: &[FitParameter], x: i64) -> (i: usize)
    requires
        valid_fit_table(table@),
    ensures
        i == segment_index(table@, x as int),
        i < table@.len(),
        i == 0 || table@[i as int].start_micro_days <= x,
        i + 1 == table@.len() || x < table@[i + 1].start_micro_days,
{
    let n: usize = table.len();
    let mut i: usize = 0;
    while i + 1 < n && x >= table[i + 1].start_micro_days
        invariant
            n == table@.len(),
            valid_fit_table(table@),
            i < n,
            i == 0 || table@[i as int].start_micro_days <= x,
        decreases n - i,
    {
        i = i + 1;
    }
    proof {
        lemma_segment_unique(table@, x as int, i as int);
    }
    i
}

/// The event that the flat span holding `jd` gives, in half-days from J2000:
/// the last whole period of the span at or before the query moved forward by
/// half a spacing, taken down to the half-day boundary before it, and moved
/// on by a day where it falls on the anomalous day.
pub open spec fn flat_phase(table: Seq<FitParameter>, kind: CalculationType, jd: int) -> int {
    let x = jd + period_constant(kind);
    let span = table[segment_index(table, x)];
    let start = span.start_micro_days * 1000;
    let periods = (x * 1000 - start) / (span.period_nano_days as int);
    let instant = start + span.period_nano_days * periods;
    let half_days = 2 * (instant / 1_000_000_000) + 1;
    let settled = if half_days == ANOMALOUS_HALF_DAYS {
        half_days + 2
    } else {
        half_days
    };
    settled - J2000_HALF_DAYS
}

/// Calculates an event from the flat span that holds the query `jd`, a Julian
/// day in micro-days inside the flat spans of the table.
pub fn calculate_flat_phase(jd: i64, table: &[FitParameter], kind: CalculationType) -> (event:
    i64)
    requires
        valid_fit_table(table@),
        flat_start(table@, kind) <= jd < fixed_start(table@, kind),
    ensures
        event == flat_phase(table@, kind, jd as int),
{
    let pc: i64 = get_period_constant(kind);
    let x: i64 = jd + pc;
    let i: usize = find_segment(table, x);
    let span: FitParameter = table[i];
    proof {
        if i > 0 {
            assert(table@[0].start_micro_days < table@[i as int].start_micro_days);
        }
    }
    let start: i64 = span.start_micro_days * 1000;
    let elapsed: i64 = x * 1000 - start;
    let periods: i64 = elapsed / span.period_nano_days;
    assert(0 <= span.period_nano_days * periods <= elapsed) by (nonlinear_arith)
        requires
            0 <= elapsed,
            0 < span.period_nano_days,
            periods == elapsed / span.period_nano_days,
    ;
    let instant: i64 = start + span.period_nano_days * periods;
    let mut half_days: i64 = 2 * (instant / 1_000_000_000) + 1;
    if half_days == ANOMALOUS_HALF_DAYS {
        half_days = half_days + 2;
    }
    half_days - J2000_HALF_DAYS
}

/// How many whole spacings lie between the start of the corrected span and
/// the query: the index of the query's symbol in the correction table. Zero
/// for a query at or before the start.
pub open spec fn correction_index(kind: CalculationType, jd: int, regime_start: int) -> nat {
    if jd <= regime_start {
        0
    } else {
        match kind {
            CalculationType::Shuo => ((jd - regime_start) / (LUNAR_MONTH_MICRO_DAYS as int)) as nat,
            CalculationType::Qi => (((jd - regime_start) * 24) / (
            TROPICAL_YEAR_MICRO_DAYS as int)) as nat,
        }
    }
}

/// Reads the correction symbol of the query `jd` from a packed table of `len`
/// symbols for events of `kind`.
pub fn correction_symbol(
    bytes: &[u8],
    len: usize,
    kind: CalculationType,
    jd: i64,
    regime_start: i64,
) -> (symbol: u8)
    requires
        len <= 4 * bytes@.len(),
    ensures
        symbol == decoded(
            bytes@,
            len as nat,
            correction_index(kind, jd as int, regime_start as int),
        ),
        symbol <= 3,
{
    if jd <= regime_start {
        return decode(bytes, len, 0);
    }
    let elapsed: i128 = jd as i128 - regime_start as i128;
    let index: i128 = match kind {
        CalculationType::Shuo => elapsed / 29_530_600,
        CalculationType::Qi => (elapsed * 24) / 365_242_200,
    };
    if index >= len as i128 {
        0
    } else {
        decode(bytes, len, index as usize)
    }
}

/// Reads the correction symbol of a new moon.
pub fn correction_for_new_moon(bytes: &[u8], len: usize, time: i64, regime_start: i64) -> (symbol:
    u8)
    requires
        len <= 4 * bytes@.len(),
    ensures
        symbol == decoded(
            bytes@,
            len as nat,
            correction_index(CalculationType::Shuo, time as int, regime_start as int),
        ),
        symbol <= 3,
{
    correction_symbol(bytes, len, CalculationType::Shuo, time, regime_start)
}

/// Reads the correction symbol of a solar term.
pub fn correction_for_solar_term(bytes: &[u8], len: usize, time: i64, regime_start: i64) -> (symbol:
    u8)
    requires
        len <= 4 * bytes@.len(),
    ensures
        symbol == decoded(
            bytes@,
            len as nat,
            correction_index(CalculationType::Qi, time as int, regime_start as int),
        ),
        symbol <= 3,
{
    correction_symbol(bytes, len, CalculationType::Qi, time, regime_start)
}

/// What a correction symbol does to an event, in half-days: 1 moves it on by
/// a day, 2 moves it back by a day, anything else leaves it.
pub open spec fn correction_shift(symbol: u8) -> int {
    if symbol == 1 {
        2
    } else if symbol == 2 {
        -2
    } else {
        0
    }
}

/// Applies a correction symbol to an event counted in half-days.
pub fn apply_correction(event: i64, symbol: u8) -> (corrected: i64)
    requires
        i64::MIN + 2 <= event <= i64::MAX - 2,
    ensures
        corrected == event + correction_shift(symbol),
{
    if symbol == 1 {
        event + 2
    } else if symbol == 2 {
        event - 2
    } else {
        event
    }
}

/// What the tables settle of a query: the event itself, or how it is to be
/// solved and the correction that the solution then takes.
#[derive(Clone, Copy, Debug, PartialEq, Eq, Structural)]
pub enum PhasePlan {
    /// The event, in half-days from J2000.
    Settled { event: i64 },
    /// The event is to be solved by `method`; `correction` is the symbol to
    /// apply to the solution, 0 where there is none.
    Solve { method: CalculationMethod, correction: u8 },
}

/// What the tables settle of the query `time`, in micro-days from J2000: in
/// the flat spans the event; in the corrected span the query's symbol of the
/// correction table; elsewhere nothing but that the event is to be solved.
pub open spec fn phase_plan(
    table: Seq<FitParameter>,
    bytes: Seq<u8>,
    len: nat,
    kind: CalculationType,
    time: int,
) -> PhasePlan {
    let jd = time + J2000_MICRO_DAYS;
    match method_for(table, kind, jd) {
        CalculationMethod::HighPrecision => PhasePlan::Solve {
            method: CalculationMethod::HighPrecision,
            correction: 0,
        },
        CalculationMethod::FlatPhase => PhasePlan::Settled {
            event: flat_phase(table, kind, jd) as i64,
        },
        CalculationMethod::FixedPhase => PhasePlan::Solve {
            method: CalculationMethod::FixedPhase,
            correction: decoded(bytes, len, correction_index(kind, jd, fixed_start(table, kind))),
        },
    }
}

/// Settles what the tables can of the event of `kind` for the query `time`,
/// given in micro-days from J2000: `table` is the fit table of the kind,
/// `bytes` and `len` its packed correction table.
pub fn calculate_phase(
    time: i64,
    kind: CalculationType,
    table: &[FitParameter],
    bytes: &[u8],
    len: usize,
) -> (plan: PhasePlan)
    requires
        valid_fit_table(table@),
        len <= 4 * bytes@.len(),
    ensures
        plan == phase_plan(table@, bytes@, len as nat, kind, time as int),
{
    let jd: i64 = if time > i64::MAX - J2000_MICRO_DAYS {
        i64::MAX
    } else {
        time + J2000_MICRO_DAYS
    };
    proof {
        if table@.len() > 1 {
            assert(table@[0].start_micro_days < table@[table@.len() - 1].start_micro_days);
        }
    }
    match determine_calculation_method(jd, table, kind) {
        CalculationMethod::HighPrecision => PhasePlan::Solve {
            method: CalculationMethod::HighPrecision,
            correction: 0,
        },
        CalculationMethod::FlatPhase => PhasePlan::Settled {
            event: calculate_flat_phase(jd, table, kind),
        },
        CalculationMethod::FixedPhase => {
            let pc: i64 = get_period_constant(kind);
            let f2: i64 = table[table.len() - 1].start_micro_days - pc;
            PhasePlan::Solve {
                method: CalculationMethod::FixedPhase,
                correction: correction_symbol(bytes, len, kind, jd, f2),
            }
        },
    }
}

} // verus!
