//! Small helpers on stems, branches and leap months.

use vstd::prelude::*;
use crate::gz::{cycle_index, cycle_index_of, in_cycle, in_range, GanZhi};

verus! {

/// The place of a pair in the cycle of sixty, or why it has none.
pub fn calculate_gz_index(gz: &GanZhi) -> (r: Result<u8, &'static str>)
    ensures
        in_cycle(gz.tian_gan as int, gz.di_zhi as int) <==> r is Ok,
        r is Ok ==> r->Ok_0 == cycle_index(gz.tian_gan as int, gz.di_zhi as int),
        !in_range(gz.tian_gan as int, gz.di_zhi as int) ==> r is Err && r->Err_0@
            == "无效的天干地支值"@,
        in_range(gz.tian_gan as int, gz.di_zhi as int) && !in_cycle(
            gz.tian_gan as int,
            gz.di_zhi as int,
        ) ==> r is Err && r->Err_0@ == "无法找到对应的干支索引"@,
{
    cycle_index_of(gz.tian_gan, gz.di_zhi)
}

/// Counting a distance backwards round a cycle of `m` lands opposite to where
/// counting it forwards lands.
proof fn lemma_backwards_round(d: int, m: int)
    requires
        d > 0,
        m == 10 || m == 12,
    ensures
        (-d) % m == if d % m == 0 {
            0
        } else {
            m - d % m
        },
{
    let q = d / m;
    let r = d % m;
    assert(d == q * m + r && 0 <= r < m) by (nonlinear_arith)
        requires
            q == d / m,
            r == d % m,
            m > 0,
    ;
    if r == 0 {
        assert(-d == (-q) * m + 0) by (nonlinear_arith)
            requires
                d == q * m + r,
                r == 0,
        ;
        vstd::arithmetic::div_mod::lemma_fundamental_div_mod_converse(-d, m, -q, 0);
    } else {
        assert(-d == (-q - 1) * m + (m - r)) by (nonlinear_arith)
            requires
                d == q * m + r,
        ;
        vstd::arithmetic::div_mod::lemma_fundamental_div_mod_converse(-d, m, -q - 1, m - r);
    }
}

/// The stem and the branch of a year, from its distance `diff` in years to a
/// year of the first pair: the distance counted round the ten stems and round
/// the twelve branches, backwards for an earlier year.
pub fn calculate_gz_from_diff(diff: i32) -> (gz: GanZhi)
    requires
        diff > i32::MIN,
    ensures
        gz.tian_gan == diff as int % 10,
        gz.di_zhi == diff as int % 12,
{
    let magnitude: i32 = if diff < 0 {
        -diff
    } else {
        diff
    };
    let tg: u8 = (magnitude % 10) as u8;
    let dz: u8 = (magnitude % 12) as u8;
    proof {
        if diff < 0 {
            lemma_backwards_round(magnitude as int, 10);
            lemma_backwards_round(magnitude as int, 12);
        }
    }
    if diff < 0 {
        let tg_adj: u8 = if tg > 0 {
            10 - tg
        } else {
            0
        };
        let dz_adj: u8 = if dz > 0 {
            12 - dz
        } else {
            0
        };
        GanZhi { tian_gan: tg_adj, di_zhi: dz_adj }
    } else {
        GanZhi { tian_gan: tg, di_zhi: dz }
    }
}

/// The leap month of the years of the short table, by year.
pub open spec fn leap_month_of(year: int) -> Option<u8> {
    if year == 2023 {
        Some(2u8)
    } else if year == 2025 {
        Some(6u8)
    } else if year == 2028 {
        Some(5u8)
    } else if year == 2031 {
        Some(3u8)
    } else if year == 2033 {
        Some(11u8)
    } else if year == 2036 {
        Some(6u8)
    } else if year == 2039 {
        Some(5u8)
    } else if year == 2042 {
        Some(2u8)
    } else if year == 2044 {
        Some(7u8)
    } else if year == 2047 {
        Some(5u8)
    } else {
        None
    }
}

/// The leap month of `year`, for the years 2023 to 2047 that have one; none
/// for any other year.
pub fn calculate_leap_month(year: i32) -> (month: Option<u8>)
    ensures
        month == leap_month_of(year as int),
{
    let years: [i32; 10] = [2023, 2025, 2028, 2031, 2033, 2036, 2039, 2042, 2044, 2047];
    let months: [u8; 10] = [2, 6, 5, 3, 11, 6, 5, 2, 7, 5];
    let mut i: usize = 0;
    while i < 10
        invariant
            i <= 10,
            years@ == seq![2023i32, 2025, 2028, 2031, 2033, 2036, 2039, 2042, 2044, 2047],
            months@ == seq![2u8, 6, 5, 3, 11, 6, 5, 2, 7, 5],
            forall|j: int| 0 <= j < i ==> years@[j] != year,
        decreases 10 - i,
    {
        if years[i] == year {
            return Some(months[i]);
        }
        i = i + 1;
    }
    None
}

} // verus!
