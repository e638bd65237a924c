//! Floor-convention integer division and remainder.
//!
//! Mode indices may be negative, and branch selection must fold them
//! symmetrically around the zero mode, so all index arithmetic uses the
//! floor convention. For a positive divisor this coincides with the
//! Euclidean convention of mathematical `/` and `%`, which is how the
//! contracts below are phrased.

use vstd::prelude::*;
use vstd::arithmetic::div_mod::{
    lemma_fundamental_div_mod, lemma_fundamental_div_mod_converse, lemma_mod_bound,
};

verus! {

/// Floor division of `m` by a positive divisor `d`.
pub fn floor_div(m: i64, d: i64) -> (r: i64)
    requires
        d > 0,
    ensures
        r == m as int / d as int,
{
    let q: i64 = m / d;
    let t: i64 = m % d;
    proof {
        lemma_trunc_is_floor(m as int, d as int, q as int, t as int);
    }
    if t != 0 && m < 0 {
        q - 1
    } else {
        q
    }
}

/// Floor remainder of `m` by a positive divisor `d`; the result lies in `[0, d)`.
pub fn floor_mod(m: i64, d: i64) -> (r: i64)
    requires
        d > 0,
    ensures
        r == m as int % d as int,
        0 <= r < d,
{
    let t: i64 = m % d;
    proof {
        let q: int = if m >= 0 { m as int / d as int } else { ((m as int * -1) / d as int) * -1 };
        lemma_trunc_is_floor(m as int, d as int, q, t as int);
    }
    if t < 0 {
        t + d
    } else {
        t
    }
}

/// Relates Rust's truncating quotient and remainder to the Euclidean ones
/// for a positive divisor: they agree except when the dividend is negative
/// with a nonzero remainder, where the quotient is one above the floor and
/// the remainder is `d` below the Euclidean one.
proof fn lemma_trunc_is_floor(m: int, d: int, q: int, t: int)
    requires
        d > 0,
        m >= 0 ==> q == m / d && t == m % d,
        m < 0 ==> q == ((m * -1) / d) * -1 && t == ((m * -1) % d) * -1,
    ensures
        t == 0 || m >= 0 ==> q == m / d && t == m % d,
        t != 0 && m < 0 ==> q - 1 == m / d && t + d == m % d,
        m < 0 ==> m / d >= m,
{
    if m >= 0 {
    } else {
        lemma_fundamental_div_mod(m, d);
        lemma_mod_bound(m, d);
        assert(m / d >= m) by (nonlinear_arith)
            requires
                d > 0,
                m < 0,
                m == d * (m / d) + m % d,
                0 <= m % d < d,
        ;
        let a = m * -1;
        lemma_fundamental_div_mod(a, d);
        lemma_mod_bound(a, d);
        assert(a == d * (a / d) + a % d);
        assert(m == d * q + t) by (nonlinear_arith)
            requires
                a == m * -1,
                q == (a / d) * -1,
                t == (a % d) * -1,
                a == d * (a / d) + a % d,
        ;
        if t == 0 {
            lemma_fundamental_div_mod_converse(m, d, q, 0);
        } else {
            assert(m == d * (q - 1) + (t + d)) by (nonlinear_arith)
                requires
                    m == d * q + t,
            ;
            lemma_fundamental_div_mod_converse(m, d, q - 1, t + d);
        }
    }
}

} // verus!
