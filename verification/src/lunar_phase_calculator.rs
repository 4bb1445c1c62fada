//! A lunar year from its events: the 25 solar terms from one winter solstice
//! past the next, the 14 new moons from the one at or before that solstice,
//! the lengths of the months between them, and the leap month.
//!
//! Events are counted in half-days from the epoch J2000.

use vstd::prelude::*;

verus! {

/// The events of one lunar year and what follows from them.
#[derive(Clone, Copy, Debug, PartialEq, Eq)]
pub struct LunarPhaseCalculator {
    /// The 25 solar terms, from the winter solstice on.
    pub jieqi: [i64; 25],
    /// The term before the first, and the one before that.
    pub pre_jieqi: [i64; 2],
    /// The 14 new moons.
    pub shuo: [i64; 14],
    /// The number of each month in the year's count.
    pub month_indices: [i32; 14],
    /// The length of each of the first 13 months; the last entry is 0.
    pub month_lengths: [i64; 14],
    /// The place of the leap month among the 14, if the year has one.
    pub leap_month: Option<i32>,
}

/// Whether the year has a leap month: its 14th new moon is not later than
/// its 25th solar term, so that 13 months begin inside 12 months of terms.
pub open spec fn has_leap_month(jieqi: Seq<i64>, shuo: Seq<i64>) -> bool {
    shuo[13] <= jieqi[24]
}

/// Whether month `i` holds its mid-term: the new moon after it is later than
/// solar term `2 * i`.
pub open spec fn holds_mid_term(jieqi: Seq<i64>, shuo: Seq<i64>, i: int) -> bool {
    shuo[i + 1] > jieqi[2 * i]
}

/// `leap` is the leap month of a year that has one: the first month from
/// month 1 on that holds no mid-term, or month 13 if each of the months 1 to
/// 12 holds one.
pub open spec fn is_leap_month(jieqi: Seq<i64>, shuo: Seq<i64>, leap: int) -> bool {
    &&& 1 <= leap <= 13
    &&& forall|k: int| 1 <= k < leap ==> holds_mid_term(jieqi, shuo, k)
    &&& leap < 13 ==> !holds_mid_term(jieqi, shuo, leap)
}

/// The number of month `j` in the year's count: its place among the 14, less
/// one from the leap month on.
pub open spec fn month_index(leap_month: Option<i32>, j: int) -> int {
    match leap_month {
        Some(leap) => if j >= leap {
            j - 1
        } else {
            j
        },
        None => j,
    }
}

/// The leap month is determined: two months that both meet the rule are the
/// same month.
pub proof fn lemma_leap_month_unique(jieqi: Seq<i64>, shuo: Seq<i64>, a: int, b: int)
    requires
        is_leap_month(jieqi, shuo, a),
        is_leap_month(jieqi, shuo, b),
    ensures
        a == b,
{
    if a < b {
        assert(holds_mid_term(jieqi, shuo, a));
    } else if b < a {
        assert(holds_mid_term(jieqi, shuo, b));
    }
}

/// Whether events lie so that differences of two of them can be taken.
pub open spec fn events_in_range(events: Seq<i64>) -> bool {
    forall|i: int|
        0 <= i < events.len() ==> -1_000_000_000_000 <= #[trigger] events[i] <= 1_000_000_000_000
}

/// Finds the leap month of a year that has one.
pub fn find_leap_month(jieqi: &[i64; 25], shuo: &[i64; 14]) -> (leap: usize)
    ensures
        is_leap_month(jieqi@, shuo@, leap as int),
{
    let mut i: usize = 1;
    while i < 13 && shuo[i + 1] > jieqi[2 * i]
        invariant
            1 <= i <= 13,
            forall|k: int| 1 <= k < i ==> holds_mid_term(jieqi@, shuo@, k),
        decreases 13 - i,
    {
        i = i + 1;
    }
    i
}

impl LunarPhaseCalculator {
    /// What follows from the events is what the rules give: each of the first
    /// 13 months is as long as the distance between its new moon and the next,
    /// the year has a leap month exactly when its 14th new moon is not later
    /// than its 25th solar term, that month is the first without a mid-term,
    /// and the months are numbered by place, one less from the leap month on.
    pub open spec fn consistent(self) -> bool {
        &&& forall|i: int| 0 <= i < 13 ==> self.month_lengths@[i] == self.shuo@[i + 1] - self.shuo@[i]
        &&& self.month_lengths@[13] == 0
        &&& self.leap_month is Some <==> has_leap_month(self.jieqi@, self.shuo@)
        &&& self.leap_month is Some ==> is_leap_month(
            self.jieqi@,
            self.shuo@,
            self.leap_month->0 as int,
        )
        &&& forall|j: int|
            0 <= j < 14 ==> self.month_indices@[j] == month_index(self.leap_month, j)
    }

    /// The year of the given events, with its month lengths, its leap month
    /// and its month numbers.
    pub fn from_events(jieqi: [i64; 25], pre_jieqi: [i64; 2], shuo: [i64; 14]) -> (year: Self)
        requires
            events_in_range(shuo@),
        ensures
            year.jieqi == jieqi,
            year.pre_jieqi == pre_jieqi,
            year.shuo == shuo,
            year.consistent(),
    {
        let mut year = LunarPhaseCalculator {
            jieqi,
            pre_jieqi,
            shuo,
            month_indices: [0;14],
            month_lengths: [0;14],
            leap_month: None,
        };
        year.calculate_month_properties();
        year.determine_leap_month();
        year
    }

    /// Sets the length of each of the first 13 months to the distance between
    /// its new moon and the next, the last length to 0, and numbers the months
    /// by place.
    pub fn calculate_month_properties(&mut self)
        requires
            events_in_range(old(self).shuo@),
        ensures
            final(self).jieqi == old(self).jieqi,
            final(self).pre_jieqi == old(self).pre_jieqi,
            final(self).shuo == old(self).shuo,
            final(self).leap_month == old(self).leap_month,
            forall|i: int|
                0 <= i < 13 ==> final(self).month_lengths@[i] == old(self).shuo@[i + 1] - old(
                    self,
                ).shuo@[i],
            final(self).month_lengths@[13] == 0,
            forall|j: int| 0 <= j < 14 ==> final(self).month_indices@[j] == j,
    {
        let mut i: usize = 0;
        while i < 14
            invariant
                i <= 14,
                events_in_range(self.shuo@),
                self.jieqi == old(self).jieqi,
                self.pre_jieqi == old(self).pre_jieqi,
                self.shuo == old(self).shuo,
                self.leap_month == old(self).leap_month,
                forall|k: int|
                    0 <= k < i && k < 13 ==> self.month_lengths@[k] == self.shuo@[k + 1]
                        - self.shuo@[k],
                i == 14 ==> self.month_lengths@[13] == 0,
                forall|j: int| 0 <= j < i ==> self.month_indices@[j] == j,
            decreases 14 - i,
        {
            if i < 13 {
                self.month_lengths[i] = self.shuo[i + 1] - self.shuo[i];
            } else {
                self.month_lengths[i] = 0;
            }
            self.month_indices[i] = i as i32;
            i = i + 1;
        }
    }

    /// Finds the leap month of a year whose months are numbered by place, and
    /// numbers the months from it on one lower. A year whose 14th new moon is
    /// later than its 25th solar term has no leap month and is left as it is.
    pub fn determine_leap_month(&mut self)
        requires
            forall|j: int| 0 <= j < 14 ==> old(self).month_indices@[j] == j,
        ensures
            final(self).jieqi == old(self).jieqi,
            final(self).pre_jieqi == old(self).pre_jieqi,
            final(self).shuo == old(self).shuo,
            final(self).month_lengths == old(self).month_lengths,
            has_leap_month(old(self).jieqi@, old(self).shuo@) ==> final(self).leap_month is Some
                && is_leap_month(
                old(self).jieqi@,
                old(self).shuo@,
                final(self).leap_month->0 as int,
            ),
            !has_leap_month(old(self).jieqi@, old(self).shuo@) ==> final(self).leap_month == old(
                self,
            ).leap_month,
            forall|j: int|
                0 <= j < 14 ==> final(self).month_indices@[j] == if has_leap_month(
                    old(self).jieqi@,
                    old(self).shuo@,
                ) {
                    month_index(final(self).leap_month, j)
                } else {
                    j
                },
    {
        if self.shuo[13] <= self.jieqi[24] {
            let leap: usize = find_leap_month(&self.jieqi, &self.shuo);
            self.leap_month = Some(leap as i32);
            let mut j: usize = leap;
            while j < 14
                invariant
                    1 <= leap <= j <= 14,
                    self.jieqi == old(self).jieqi,
                    self.pre_jieqi == old(self).pre_jieqi,
                    self.shuo == old(self).shuo,
                    self.month_lengths == old(self).month_lengths,
                    self.leap_month == Some(leap as i32),
                    forall|k: int| 0 <= k < leap ==> self.month_indices@[k] == k,
                    forall|k: int| leap <= k < j ==> self.month_indices@[k] == k - 1,
                    forall|k: int| j <= k < 14 ==> self.month_indices@[k] == k,
                decreases 14 - j,
            {
                self.month_indices[j] = self.month_indices[j] - 1;
                j = j + 1;
            }
        }
    }
}

} // verus!
