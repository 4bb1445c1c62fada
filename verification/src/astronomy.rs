//! What the astronomical models decide before any series is summed: where
//! the terms of a series stop for the precision asked for, which coefficients
//! a precession quantity takes from its table, and which part of the table of
//! the clock correction a year falls to.

use vstd::prelude::*;

verus! {

/// A set of precession polynomials.
#[derive(Clone, Copy, Debug, PartialEq, Eq, Structural)]
pub enum PrecessionModel {
    /// The polynomials of 1976, of four coefficients each.
    IAU1976,
    /// The polynomials of 2000, of six coefficients each.
    IAU2000,
    /// The polynomials of 2003, of six coefficients each.
    P03,
}

/// One of the twelve precession quantities, in the order of their
/// polynomials in a table.
#[derive(Clone, Copy, Debug, PartialEq, Eq, Structural)]
pub enum PrecessionQuantity {
    Fi,
    W,
    P,
    Q,
    E,
    X,
    Pi,
    II,
    P_,
    Th,
    Z,
    Z_,
}

/// The number of coefficients of each polynomial of a model.
pub open spec fn coefficients_of(model: PrecessionModel) -> int {
    match model {
        PrecessionModel::IAU1976 => 4,
        PrecessionModel::IAU2000 => 6,
        PrecessionModel::P03 => 6,
    }
}

/// The place of a quantity's polynomial in a table, 0 to 11.
pub open spec fn place_of_quantity(quantity: PrecessionQuantity) -> int {
    match quantity {
        PrecessionQuantity::Fi => 0,
        PrecessionQuantity::W => 1,
        PrecessionQuantity::P => 2,
        PrecessionQuantity::Q => 3,
        PrecessionQuantity::E => 4,
        PrecessionQuantity::X => 5,
        PrecessionQuantity::Pi => 6,
        PrecessionQuantity::II => 7,
        PrecessionQuantity::P_ => 8,
        PrecessionQuantity::Th => 9,
        PrecessionQuantity::Z => 10,
        PrecessionQuantity::Z_ => 11,
    }
}

/// The number of coefficients of each polynomial of a model.
pub fn coefficient_count(model: &PrecessionModel) -> (count: usize)
    ensures
        count == coefficients_of(*model),
{
    match model {
        PrecessionModel::IAU1976 => 4,
        PrecessionModel::IAU2000 => 6,
        PrecessionModel::P03 => 6,
    }
}

/// The place of a quantity's polynomial in a table.
pub fn quantity_index(quantity: &PrecessionQuantity) -> (index: usize)
    ensures
        index == place_of_quantity(*quantity),
        index < 12,
{
    match quantity {
        PrecessionQuantity::Fi => 0,
        PrecessionQuantity::W => 1,
        PrecessionQuantity::P => 2,
        PrecessionQuantity::Q => 3,
        PrecessionQuantity::E => 4,
        PrecessionQuantity::X => 5,
        PrecessionQuantity::Pi => 6,
        PrecessionQuantity::II => 7,
        PrecessionQuantity::P_ => 8,
        PrecessionQuantity::Th => 9,
        PrecessionQuantity::Z => 10,
        PrecessionQuantity::Z_ => 11,
    }
}

/// Where in a model's table the coefficients of a quantity's polynomial
/// stand, the constant first: the first of them and the one past the last.
/// The table of a model holds twelve polynomials one after the other.
pub fn coefficient_range(model: &PrecessionModel, quantity: &PrecessionQuantity) -> (range: (
    usize,
    usize,
))
    ensures
        range.0 == place_of_quantity(*quantity) * coefficients_of(*model),
        range.1 == range.0 + coefficients_of(*model),
        range.1 <= 12 * coefficients_of(*model),
{
    let count: usize = coefficient_count(model);
    let first: usize = quantity_index(quantity) * count;
    (first, first + count)
}

/// How the clock correction of a year is found.
#[derive(Clone, Copy, Debug, PartialEq, Eq, Structural)]
pub enum DeltaTMethod {
    /// From the block of the table that holds the year.
    Table { block: usize },
    /// From the quadratic curve, drawn towards the last value of the table:
    /// in the hundred years from the last year of the table on.
    Blend,
    /// From the quadratic curve alone: more than a hundred years after the
    /// last year of the table.
    Extrapolation,
}

/// Whether the years of a table of the clock correction can be searched:
/// there are at least two, the first of a block and the year that ends the
/// table.
pub open spec fn valid_delta_t_years(years: Seq<i64>) -> bool {
    years.len() >= 2
}

/// The block of the table that holds a year before the table's last: the
/// first block, from `from` on, whose successor begins after the year; the
/// last block if there is none.
pub open spec fn block_of_year(years: Seq<i64>, year: int, from: int) -> int
    decreases years.len() - from,
{
    if from < 0 || from + 2 >= years.len() {
        years.len() - 2
    } else if year < years[from + 1] {
        from
    } else {
        block_of_year(years, year, from + 1)
    }
}

/// How the clock correction of a year is found, where years are counted in
/// thousandths and `years` holds the first year of each block of the table
/// and then the year that ends it.
pub open spec fn delta_t_method(years: Seq<i64>, year: int) -> DeltaTMethod {
    let last = years[years.len() - 1];
    if year >= last {
        if year > last + 100_000 {
            DeltaTMethod::Extrapolation
        } else {
            DeltaTMethod::Blend
        }
    } else {
        DeltaTMethod::Table { block: block_of_year(years, year, 0) as usize }
    }
}

/// The block of the table that holds a year.
pub fn find_data_interval(years: &[i64], year: i64) -> (block: usize)
    requires
        valid_delta_t_years(years@),
    ensures
        block == block_of_year(years@, year as int, 0),
        block + 1 < years@.len(),
{
    let n: usize = years.len();
    let mut i: usize = 0;
    while i + 2 < n
        invariant
            n == years@.len(),
            n >= 2,
            i + 2 <= n,
            block_of_year(years@, year as int, 0) == block_of_year(years@, year as int, i as int),
        decreases n - i,
    {
        if year < years[i + 1] {
            return i;
        }
        i = i + 1;
    }
    n - 2
}

/// Chooses how the clock correction of a year is found.
pub fn determine_delta_t_method(years: &[i64], year: i64) -> (method: DeltaTMethod)
    requires
        valid_delta_t_years(years@),
    ensures
        method == delta_t_method(years@, year as int),
{
    let last: i64 = years[years.len() - 1];
    if year >= last {
        if year as i128 - last as i128 > 100_000 {
            DeltaTMethod::Extrapolation
        } else {
            DeltaTMethod::Blend
        }
    } else {
        DeltaTMethod::Table { block: find_data_interval(years, year) }
    }
}

/// Where the terms of one order of a planet's series stop, when `term_count`
/// terms are asked of the first order: a negative count takes every term;
/// otherwise the order takes the share of `3 * term_count` coefficients that
/// its size has of the first order's, rounded to the nearest whole, and three
/// coefficients more in every order but the first, and never more than it
/// has. `start` and `end` bound the order's coefficients, `first_order_size`
/// is the number of coefficients of the first order.
pub open spec fn series_limit(
    term_count: int,
    start: int,
    end: int,
    first_order_size: int,
    order: int,
) -> int {
    if term_count < 0 {
        end
    } else {
        let share = (6 * term_count * (end - start) + first_order_size) / (2 * first_order_size);
        let wanted = start + share + if order > 0 {
            3int
        } else {
            0int
        };
        if wanted < end {
            wanted
        } else {
            end
        }
    }
}

/// Asking for more terms never gives fewer: the limit of an order does not
/// fall when the count rises, and taking every term gives at least as many as
/// any count.
pub proof fn lemma_series_limit_monotone(
    fewer: int,
    more: int,
    start: int,
    end: int,
    first_order_size: int,
    order: int,
)
    requires
        0 <= fewer <= more,
        start <= end,
        first_order_size > 0,
    ensures
        start <= series_limit(fewer, start, end, first_order_size, order) <= series_limit(
            more,
            start,
            end,
            first_order_size,
            order,
        ) <= end,
        series_limit(more, start, end, first_order_size, order) <= series_limit(
            -1,
            start,
            end,
            first_order_size,
            order,
        ),
{
    let size = end - start;
    let a = 6 * fewer * size + first_order_size;
    let b = 6 * more * size + first_order_size;
    assert(0 <= a <= b) by (nonlinear_arith)
        requires
            0 <= fewer <= more,
            size >= 0,
            first_order_size > 0,
            a == 6 * fewer * size + first_order_size,
            b == 6 * more * size + first_order_size,
    ;
    vstd::arithmetic::div_mod::lemma_div_is_ordered(a, b, 2 * first_order_size);
    vstd::arithmetic::div_mod::lemma_div_pos_is_pos(a, 2 * first_order_size);
}

/// Where the terms of one order of a planet's series stop.
pub fn calculate_series_limit(
    term_count: i32,
    start: usize,
    end: usize,
    first_order_size: usize,
    order: usize,
) -> (limit: usize)
    requires
        start <= end <= 0x7fff_ffff,
        0 < first_order_size <= 0x7fff_ffff,
    ensures
        limit == series_limit(
            term_count as int,
            start as int,
            end as int,
            first_order_size as int,
            order as int,
        ),
        start <= limit <= end,
{
    if term_count < 0 {
        return end;
    }
    let n: u128 = term_count as u128;
    let size: u128 = (end - start) as u128;
    let first: u128 = first_order_size as u128;
    assert(6 * n * size <= 6 * 0x7fff_ffff * 0x7fff_ffff) by (nonlinear_arith)
        requires
            0 <= n <= 0x7fff_ffff,
            0 <= size <= 0x7fff_ffff,
    ;
    let share: u128 = (6 * n * size + first) / (2 * first);
    let extra: u128 = if order > 0 {
        3
    } else {
        0
    };
    let wanted: u128 = start as u128 + share + extra;
    if wanted < end as u128 {
        wanted as usize
    } else {
        end
    }
}

/// Where the terms of one group of the moon's series stop, when `term_count`
/// terms are asked for: a negative count takes every term; otherwise the
/// group takes the share of `6 * term_count` coefficients that its size has
/// of the first group's, taken down to a whole number, and six coefficients
/// more in every group but the first, and never more than it has.
pub open spec fn lunar_series_limit(
    term_count: int,
    group_size: int,
    first_group_size: int,
    group: int,
) -> int {
    if term_count < 0 {
        group_size
    } else {
        let wanted = (6 * term_count * group_size) / first_group_size + if group > 0 {
            6int
        } else {
            0int
        };
        if wanted < group_size {
            wanted
        } else {
            group_size
        }
    }
}

/// Where the terms of one group of the moon's series stop.
pub fn calculate_lunar_series_limit(
    term_count: i32,
    group_size: usize,
    first_group_size: usize,
    group: usize,
) -> (limit: usize)
    requires
        group_size <= 0x7fff_ffff,
        0 < first_group_size <= 0x7fff_ffff,
    ensures
        limit == lunar_series_limit(
            term_count as int,
            group_size as int,
            first_group_size as int,
            group as int,
        ),
        limit <= group_size,
{
    if term_count < 0 {
        return group_size;
    }
    let n: u128 = term_count as u128;
    let size: u128 = group_size as u128;
    assert(6 * n * size <= 6 * 0x7fff_ffff * 0x7fff_ffff) by (nonlinear_arith)
        requires
            0 <= n <= 0x7fff_ffff,
            0 <= size <= 0x7fff_ffff,
    ;
    let share: u128 = (6 * n * size) / (first_group_size as u128);
    let extra: u128 = if group > 0 {
        6
    } else {
        0
    };
    let wanted: u128 = share + extra;
    if wanted < size {
        wanted as usize
    } else {
        group_size
    }
}

} // verus!
