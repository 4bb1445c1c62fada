//! Division and remainder that go down rather than towards zero.

use vstd::prelude::*;
use vstd::arithmetic::div_mod::lemma_fundamental_div_mod_converse;

verus! {

/// The quotient of `a` by `b` taken down to a whole number.
pub fn floor_div(a: i64, b: i64) -> (q: i64)
    requires
        b > 0,
    ensures
        q == a as int / b as int,
{
    if a >= 0 {
        a / b
    } else {
        let n: i64 = -(a + 1);
        let below: i64 = n / b;
        proof {
            let r = n as int % b as int;
            assert(n == below * b + r && 0 <= r < b) by (nonlinear_arith)
                requires
                    below == n as int / b as int,
                    r == n as int % b as int,
                    b > 0,
            ;
            assert(a == (-below - 1) * b + (b - r - 1)) by (nonlinear_arith)
                requires
                    n == below * b + r,
                    a == -(n + 1),
            ;
            lemma_fundamental_div_mod_converse(a as int, b as int, -below - 1, b - r - 1);
        }
        -below - 1
    }
}

/// What is left of `a` above the last multiple of `b` at or below it.
pub fn floor_mod(a: i64, b: i64) -> (r: i64)
    requires
        b > 0,
    ensures
        r == a as int % b as int,
        0 <= r < b,
{
    if a >= 0 {
        a % b
    } else {
        let n: i64 = -(a + 1);
        let below: i64 = n / b;
        let left: i64 = n % b;
        proof {
            assert(n == below * b + left && 0 <= left < b) by (nonlinear_arith)
                requires
                    below == n as int / b as int,
                    left == n as int % b as int,
                    b > 0,
            ;
            assert(a == (-below - 1) * b + (b - left - 1)) by (nonlinear_arith)
                requires
                    n == below * b + left,
                    a == -(n + 1),
            ;
            lemma_fundamental_div_mod_converse(a as int, b as int, -below - 1, b - left - 1);
        }
        b - left - 1
    }
}

} // verus!
