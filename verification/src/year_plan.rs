//! The order in which the events of a lunar year are asked for.
//!
//! Finding an event takes the orbital series, which this library does not
//! hold. So the year is worked out in steps: the plan names the next event it
//! needs, the caller finds it and hands it back, and after 43 events the year
//! is complete. Queries are in micro-days from J2000, events in half-days
//! from J2000.

use vstd::prelude::*;
use crate::arith::floor_div;
use crate::fit::CalculationType;
use crate::lunar_phase_calculator::{events_in_range, LunarPhaseCalculator};

verus! {

/// Micro-days in half a day.
pub const MICRO_PER_HALF_DAY: i64 = 500_000;

/// Nominal spacing of the solar terms, in micro-days: a 24th of the year.
pub const JIEQI_INTERVAL_MICRO_DAYS: i64 = 15_218_425;

/// Nominal spacing of the new moons, in micro-days.
pub const LUNAR_MONTH_MICRO_DAYS: i64 = 29_530_600;

/// Length of the tropical year, in micro-days.
pub const TROPICAL_YEAR_MICRO_DAYS: i64 = 365_242_200;

/// The largest query, in micro-days either side of J2000, that a plan takes.
pub const MAX_QUERY_MICRO_DAYS: i64 = 1_000_000_000_000_000;

/// The largest event, in half-days either side of J2000, that a plan takes.
pub const MAX_EVENT_HALF_DAYS: i64 = 1_000_000_000_000;

/// What a plan is waiting for.
#[derive(Clone, Copy, Debug, PartialEq, Eq, Structural)]
pub enum Stage {
    /// The solar term at the first estimate of the winter solstice.
    Solstice,
    /// One of the 25 solar terms.
    Terms,
    /// One of the two terms before the first.
    EarlierTerms,
    /// The new moon nearest the winter solstice.
    NearestMoon,
    /// One of the 14 new moons.
    Moons,
    /// Nothing: every event is in.
    Finished,
}

/// What a plan asks of its caller.
#[derive(Clone, Copy, Debug, PartialEq, Eq, Structural)]
pub enum Request {
    /// The event of `kind` for the query `time`.
    Phase { kind: CalculationType, time: i64 },
    /// Nothing more.
    Done,
}

/// The events of a lunar year as far as they are known.
pub struct YearPlan {
    /// The instant that the year is wanted for.
    pub query: i64,
    /// The estimate of the winter solstice that the terms are spaced from.
    pub base: i64,
    /// What the plan is waiting for.
    pub stage: Stage,
    /// The solar terms found so far.
    pub jieqi: Vec<i64>,
    /// The earlier terms found so far.
    pub pre_jieqi: Vec<i64>,
    /// The estimate of the first new moon that the new moons are spaced from.
    pub first_moon: i64,
    /// The new moons found so far.
    pub shuo: Vec<i64>,
}

/// The first estimate of the winter solstice before the query: the seasonal
/// anchor, day 355, moved by the whole number of years nearest to the
/// distance from the anchor to the query.
pub open spec fn base_estimate(query: int) -> int {
    ((query - 172_000_000) / 365_242_200) * 365_242_200 + 355_000_000
}

/// The estimate that the terms are spaced from: the first estimate, or the
/// one a year earlier where the term found at the first is still after the
/// query.
pub open spec fn settled_base(query: int, solstice: int) -> int {
    if solstice * 500_000 > query {
        base_estimate(query) - 365_242_200
    } else {
        base_estimate(query)
    }
}

/// The estimate that the new moons are spaced from: the new moon found
/// nearest the winter solstice, or a month before it where it is later than
/// the solstice.
pub open spec fn settled_first_moon(solstice: int, nearest: int) -> int {
    if nearest > solstice {
        nearest * 500_000 - 29_530_600
    } else {
        nearest * 500_000
    }
}

/// Whether an event lies within what a plan takes.
pub open spec fn event_in_range(event: int) -> bool {
    -1_000_000_000_000 <= event <= 1_000_000_000_000
}

/// Whether an event lies within what a plan takes.
pub fn is_event_in_range(event: i64) -> (ok: bool)
    ensures
        ok == event_in_range(event as int),
{
    -MAX_EVENT_HALF_DAYS <= event && event <= MAX_EVENT_HALF_DAYS
}

/// Whether a query lies within what a plan takes.
pub fn is_query_in_range(query: i64) -> (ok: bool)
    ensures
        ok == (-MAX_QUERY_MICRO_DAYS <= query <= MAX_QUERY_MICRO_DAYS),
{
    -MAX_QUERY_MICRO_DAYS <= query && query <= MAX_QUERY_MICRO_DAYS
}

impl YearPlan {
    /// The plan holds as many events as its stage says, all within range, and
    /// its estimates are those that the events found so far give.
    pub open spec fn wf(&self) -> bool {
        &&& -MAX_QUERY_MICRO_DAYS <= self.query <= MAX_QUERY_MICRO_DAYS
        &&& events_in_range(self.jieqi@)
        &&& events_in_range(self.pre_jieqi@)
        &&& events_in_range(self.shuo@)
        &&& match self.stage {
            Stage::Solstice => self.jieqi@.len() == 0 && self.base == base_estimate(
                self.query as int,
            ),
            Stage::Terms => self.jieqi@.len() < 25,
            _ => self.jieqi@.len() == 25,
        }
        &&& self.stage != Stage::Solstice ==> (self.base == base_estimate(self.query as int)
            || self.base == base_estimate(self.query as int) - 365_242_200)
        &&& match self.stage {
            Stage::Solstice | Stage::Terms => self.pre_jieqi@.len() == 0,
            Stage::EarlierTerms => self.pre_jieqi@.len() < 2,
            _ => self.pre_jieqi@.len() == 2,
        }
        &&& match self.stage {
            Stage::Moons => self.shuo@.len() < 14,
            Stage::Finished => self.shuo@.len() == 14,
            _ => self.shuo@.len() == 0,
        }
        &&& (self.stage == Stage::Moons || self.stage == Stage::Finished) ==> exists|nearest: int|
            event_in_range(nearest) && self.first_moon == #[trigger] settled_first_moon(
                self.jieqi@[0] as int,
                nearest,
            )
    }

    /// How many events the plan still needs.
    pub open spec fn remaining(&self) -> nat {
        match self.stage {
            Stage::Solstice => 43,
            Stage::Terms => (42 - self.jieqi@.len()) as nat,
            Stage::EarlierTerms => (17 - self.pre_jieqi@.len()) as nat,
            Stage::NearestMoon => 15,
            Stage::Moons => (14 - self.shuo@.len()) as nat,
            Stage::Finished => 0,
        }
    }

    /// What the plan asks for next: the solar term at the first estimate of
    /// the solstice; then the 25 terms, a 24th of a year apart from the
    /// settled estimate; then the terms one and two spacings before it; then
    /// the new moon at the first term found; then the 14 new moons, a month
    /// apart from the settled first; then nothing.
    pub open spec fn request(&self) -> Request {
        match self.stage {
            Stage::Solstice => Request::Phase {
                kind: CalculationType::Qi,
                time: base_estimate(self.query as int) as i64,
            },
            Stage::Terms => Request::Phase {
                kind: CalculationType::Qi,
                time: (self.base + 15_218_425 * self.jieqi@.len()) as i64,
            },
            Stage::EarlierTerms => Request::Phase {
                kind: CalculationType::Qi,
                time: (self.base - 15_218_425 * (self.pre_jieqi@.len() + 1)) as i64,
            },
            Stage::NearestMoon => Request::Phase {
                kind: CalculationType::Shuo,
                time: (self.jieqi@[0] * 500_000) as i64,
            },
            Stage::Moons => Request::Phase {
                kind: CalculationType::Shuo,
                time: (self.first_moon + 29_530_600 * self.shuo@.len()) as i64,
            },
            Stage::Finished => Request::Done,
        }
    }

    /// A plan for the year of `query`, an instant in micro-days from J2000,
    /// with its first request.
    pub fn start(query: i64) -> (started: (Self, Request))
        requires
            -MAX_QUERY_MICRO_DAYS <= query <= MAX_QUERY_MICRO_DAYS,
        ensures
            started.0.wf(),
            started.0.query == query,
            started.0.stage == Stage::Solstice,
            started.1 == started.0.request(),
    {
        let years: i64 = floor_div(query - 172_000_000, TROPICAL_YEAR_MICRO_DAYS);
        assert(-2_800_000 <= years <= 2_800_000) by (nonlinear_arith)
            requires
                years == (query - 172_000_000) / 365_242_200,
                -1_000_000_000_000_000 <= query <= 1_000_000_000_000_000,
        ;
        let base: i64 = years * TROPICAL_YEAR_MICRO_DAYS + 355_000_000;
        let plan = YearPlan {
            query,
            base,
            stage: Stage::Solstice,
            jieqi: Vec::new(),
            pre_jieqi: Vec::new(),
            first_moon: 0,
            shuo: Vec::new(),
        };
        (plan, Request::Phase { kind: CalculationType::Qi, time: base })
    }

    /// The request that the plan is waiting on.
    pub fn current_request(&self) -> (request: Request)
        requires
            self.wf(),
        ensures
            request == self.request(),
    {
        proof {
            lemma_base_bounds(self.query as int);
        }
        match self.stage {
            Stage::Solstice => Request::Phase { kind: CalculationType::Qi, time: self.base },
            Stage::Terms => {
                let n: i64 = self.jieqi.len() as i64;
                Request::Phase {
                    kind: CalculationType::Qi,
                    time: self.base + JIEQI_INTERVAL_MICRO_DAYS * n,
                }
            },
            Stage::EarlierTerms => {
                let n: i64 = self.pre_jieqi.len() as i64;
                Request::Phase {
                    kind: CalculationType::Qi,
                    time: self.base - JIEQI_INTERVAL_MICRO_DAYS * (n + 1),
                }
            },
            Stage::NearestMoon => {
                assert(event_in_range(self.jieqi@[0] as int));
                Request::Phase {
                    kind: CalculationType::Shuo,
                    time: self.jieqi[0] * MICRO_PER_HALF_DAY,
                }
            },
            Stage::Moons => {
                let n: i64 = self.shuo.len() as i64;
                Request::Phase {
                    kind: CalculationType::Shuo,
                    time: self.first_moon + LUNAR_MONTH_MICRO_DAYS * n,
                }
            },
            Stage::Finished => Request::Done,
        }
    }

    /// Takes the event that was asked for and names the next request. A plan
    /// that is finished stays as it is.
    pub fn advance(&mut self, event: i64) -> (request: Request)
        requires
            old(self).wf(),
            event_in_range(event as int),
        ensures
            final(self).wf(),
            request == final(self).request(),
            final(self).query == old(self).query,
            old(self).stage != Stage::Finished ==> final(self).remaining() + 1 == old(
                self,
            ).remaining(),
            match old(self).stage {
                Stage::Solstice => {
                    &&& final(self).stage == Stage::Terms
                    &&& final(self).base == settled_base(old(self).query as int, event as int)
                    &&& final(self).jieqi@ == old(self).jieqi@
                    &&& final(self).pre_jieqi@ == old(self).pre_jieqi@
                    &&& final(self).shuo@ == old(self).shuo@
                },
                Stage::Terms => {
                    &&& final(self).stage == if old(self).jieqi@.len() == 24 {
                        Stage::EarlierTerms
                    } else {
                        Stage::Terms
                    }
                    &&& final(self).base == old(self).base
                    &&& final(self).jieqi@ == old(self).jieqi@.push(event)
                    &&& final(self).pre_jieqi@ == old(self).pre_jieqi@
                    &&& final(self).shuo@ == old(self).shuo@
                },
                Stage::EarlierTerms => {
                    &&& final(self).stage == if old(self).pre_jieqi@.len() == 1 {
                        Stage::NearestMoon
                    } else {
                        Stage::EarlierTerms
                    }
                    &&& final(self).base == old(self).base
                    &&& final(self).jieqi@ == old(self).jieqi@
                    &&& final(self).pre_jieqi@ == old(self).pre_jieqi@.push(event)
                    &&& final(self).shuo@ == old(self).shuo@
                },
                Stage::NearestMoon => {
                    &&& final(self).stage == Stage::Moons
                    &&& final(self).base == old(self).base
                    &&& final(self).first_moon == settled_first_moon(
                        old(self).jieqi@[0] as int,
                        event as int,
                    )
                    &&& final(self).jieqi@ == old(self).jieqi@
                    &&& final(self).pre_jieqi@ == old(self).pre_jieqi@
                    &&& final(self).shuo@ == old(self).shuo@
                },
                Stage::Moons => {
                    &&& final(self).stage == if old(self).shuo@.len() == 13 {
                        Stage::Finished
                    } else {
                        Stage::Moons
                    }
                    &&& final(self).base == old(self).base
                    &&& final(self).first_moon == old(self).first_moon
                    &&& final(self).jieqi@ == old(self).jieqi@
                    &&& final(self).pre_jieqi@ == old(self).pre_jieqi@
                    &&& final(self).shuo@ == old(self).shuo@.push(event)
                },
                Stage::Finished => {
                    &&& final(self).stage == Stage::Finished
                    &&& final(self).base == old(self).base
                    &&& final(self).first_moon == old(self).first_moon
                    &&& final(self).jieqi@ == old(self).jieqi@
                    &&& final(self).pre_jieqi@ == old(self).pre_jieqi@
                    &&& final(self).shuo@ == old(self).shuo@
                },
            },
    {
        proof {
            lemma_base_bounds(self.query as int);
        }
        match self.stage {
            Stage::Solstice => {
                if event * MICRO_PER_HALF_DAY > self.query {
                    self.base = self.base - TROPICAL_YEAR_MICRO_DAYS;
                }
                self.stage = Stage::Terms;
            },
            Stage::Terms => {
                self.jieqi.push(event);
                if self.jieqi.len() == 25 {
                    self.stage = Stage::EarlierTerms;
                }
            },
            Stage::EarlierTerms => {
                self.pre_jieqi.push(event);
                if self.pre_jieqi.len() == 2 {
                    self.stage = Stage::NearestMoon;
                }
            },
            Stage::NearestMoon => {
                assert(event_in_range(self.jieqi@[0] as int));
                if event > self.jieqi[0] {
                    self.first_moon = event * MICRO_PER_HALF_DAY - LUNAR_MONTH_MICRO_DAYS;
                } else {
                    self.first_moon = event * MICRO_PER_HALF_DAY;
                }
                self.stage = Stage::Moons;
                assert(self.first_moon == settled_first_moon(self.jieqi@[0] as int, event as int));
            },
            Stage::Moons => {
                self.shuo.push(event);
                if self.shuo.len() == 14 {
                    self.stage = Stage::Finished;
                }
            },
            Stage::Finished => {},
        }
        self.current_request()
    }

    /// The year of a finished plan: its events, and the month lengths, leap
    /// month and month numbers that follow from them.
    pub fn finish(&self) -> (year: LunarPhaseCalculator)
        requires
            self.wf(),
            self.stage == Stage::Finished,
        ensures
            year.jieqi@ == self.jieqi@,
            year.pre_jieqi@ == self.pre_jieqi@,
            year.shuo@ == self.shuo@,
            year.consistent(),
    {
        let mut jieqi: [i64; 25] = [0;25];
        let mut i: usize = 0;
        while i < 25
            invariant
                i <= 25,
                self.jieqi@.len() == 25,
                forall|k: int| 0 <= k < i ==> jieqi@[k] == self.jieqi@[k],
            decreases 25 - i,
        {
            jieqi[i] = self.jieqi[i];
            i = i + 1;
        }
        let pre_jieqi: [i64; 2] = [self.pre_jieqi[0], self.pre_jieqi[1]];
        let mut shuo: [i64; 14] = [0;14];
        let mut j: usize = 0;
        while j < 14
            invariant
                j <= 14,
                self.shuo@.len() == 14,
                forall|k: int| 0 <= k < j ==> shuo@[k] == self.shuo@[k],
            decreases 14 - j,
        {
            shuo[j] = self.shuo[j];
            j = j + 1;
        }
        assert(jieqi@ =~= self.jieqi@);
        assert(pre_jieqi@ =~= self.pre_jieqi@);
        assert(shuo@ =~= self.shuo@);
        LunarPhaseCalculator::from_events(jieqi, pre_jieqi, shuo)
    }
}

/// The query that solar term `i` of a plan was asked with, in micro-days.
pub open spec fn term_query(plan: YearPlan, i: int) -> int {
    plan.base + 15_218_425 * i
}

/// The query that new moon `i` of a plan was asked with, in micro-days.
pub open spec fn moon_query(plan: YearPlan, i: int) -> int {
    plan.first_moon + 29_530_600 * i
}

/// Where every solar term found lies within `tolerance` micro-days of the
/// query it was asked with, two terms that follow each other lie a 24th of a
/// year apart to within twice the tolerance; and they come in strictly rising
/// order where twice the tolerance is less than that spacing.
pub proof fn lemma_terms_follow_queries(plan: YearPlan, tolerance: int)
    requires
        plan.jieqi@.len() == 25,
        forall|i: int|
            0 <= i < 25 ==> -tolerance <= (#[trigger] plan.jieqi@[i]) * 500_000 - term_query(plan, i)
                <= tolerance,
    ensures
        forall|i: int|
            0 <= i < 24 ==> 15_218_425 - 2 * tolerance <= (plan.jieqi@[i + 1]
                - #[trigger] plan.jieqi@[i]) * 500_000 <= 15_218_425 + 2 * tolerance,
        2 * tolerance < 15_218_425 ==> forall|i: int|
            0 <= i < 24 ==> (#[trigger] plan.jieqi@[i]) < plan.jieqi@[i + 1],
{
    assert forall|i: int| 0 <= i < 24 implies 15_218_425 - 2 * tolerance <= (plan.jieqi@[i + 1]
        - #[trigger] plan.jieqi@[i]) * 500_000 <= 15_218_425 + 2 * tolerance by {
        let a = plan.jieqi@[i];
        let b = plan.jieqi@[i + 1];
        assert(-tolerance <= a * 500_000 - term_query(plan, i) <= tolerance);
        assert(-tolerance <= b * 500_000 - term_query(plan, i + 1) <= tolerance);
    }
    if 2 * tolerance < 15_218_425 {
        assert forall|i: int| 0 <= i < 24 implies (#[trigger] plan.jieqi@[i]) < plan.jieqi@[i
            + 1] by {
            assert((plan.jieqi@[i + 1] - plan.jieqi@[i]) * 500_000 > 0);
        }
    }
}

/// Where every new moon found lies within `tolerance` micro-days of the query
/// it was asked with, two new moons that follow each other lie a mean month
/// apart to within twice the tolerance; and they come in strictly rising
/// order where twice the tolerance is less than that spacing.
pub proof fn lemma_moons_follow_queries(plan: YearPlan, tolerance: int)
    requires
        plan.shuo@.len() == 14,
        forall|i: int|
            0 <= i < 14 ==> -tolerance <= (#[trigger] plan.shuo@[i]) * 500_000 - moon_query(plan, i)
                <= tolerance,
    ensures
        forall|i: int|
            0 <= i < 13 ==> 29_530_600 - 2 * tolerance <= (plan.shuo@[i + 1]
                - #[trigger] plan.shuo@[i]) * 500_000 <= 29_530_600 + 2 * tolerance,
        2 * tolerance < 29_530_600 ==> forall|i: int|
            0 <= i < 13 ==> (#[trigger] plan.shuo@[i]) < plan.shuo@[i + 1],
{
    assert forall|i: int| 0 <= i < 13 implies 29_530_600 - 2 * tolerance <= (plan.shuo@[i + 1]
        - #[trigger] plan.shuo@[i]) * 500_000 <= 29_530_600 + 2 * tolerance by {
        let a = plan.shuo@[i];
        let b = plan.shuo@[i + 1];
        assert(-tolerance <= a * 500_000 - moon_query(plan, i) <= tolerance);
        assert(-tolerance <= b * 500_000 - moon_query(plan, i + 1) <= tolerance);
    }
    if 2 * tolerance < 29_530_600 {
        assert forall|i: int| 0 <= i < 13 implies (#[trigger] plan.shuo@[i]) < plan.shuo@[i
            + 1] by {
            assert((plan.shuo@[i + 1] - plan.shuo@[i]) * 500_000 > 0);
        }
    }
}

/// The first estimate of the solstice lies within a year and a half of the
/// query.
pub proof fn lemma_base_bounds(query: int)
    ensures
        query - 182_242_200 < base_estimate(query) <= query + 183_000_000,
{
    let span = query - 172_000_000;
    let years = span / 365_242_200;
    assert(years * 365_242_200 <= span < years * 365_242_200 + 365_242_200) by (nonlinear_arith)
        requires
            years == span / 365_242_200,
    ;
}

} // verus!
