//! Integer facts shared by the fixed-point arithmetic of the protocol.
use vstd::prelude::*;

verus! {

/// Ceiling division over mathematical integers: the least `q` with `q * d >= a`.
pub open spec fn ceil_div(a: int, d: int) -> int {
    if a % d == 0 {
        a / d
    } else {
        a / d + 1
    }
}

/// `a + b`, saturated at `u64::MAX`.
pub open spec fn sat_add_u64(a: int, b: int) -> int {
    if a + b > u64::MAX {
        u64::MAX as int
    } else {
        a + b
    }
}

/// `a - b`, saturated at zero.
pub open spec fn sat_sub(a: int, b: int) -> int {
    if a >= b {
        a - b
    } else {
        0
    }
}

/// `x` clamped into the `i64` range.
pub open spec fn sat_i64(x: int) -> int {
    if x > i64::MAX {
        i64::MAX as int
    } else if x < i64::MIN {
        i64::MIN as int
    } else {
        x
    }
}

pub open spec fn min_int(a: int, b: int) -> int {
    if a <= b {
        a
    } else {
        b
    }
}

pub open spec fn max_int(a: int, b: int) -> int {
    if a >= b {
        a
    } else {
        b
    }
}

pub proof fn lemma_mul_le(a: int, b: int, c: int, d: int)
    requires
        0 <= a <= c,
        0 <= b <= d,
    ensures
        0 <= a * b <= c * d,
{
    assert(0 <= a * b <= c * d) by (nonlinear_arith)
        requires
            0 <= a <= c,
            0 <= b <= d,
    ;
}

pub proof fn lemma_div_bounds(x: int, d: int)
    requires
        0 <= x,
        0 < d,
    ensures
        0 <= x / d <= x,
        x / d * d <= x < x / d * d + d,
        0 <= x % d < d,
        x == x / d * d + x % d,
{
    assert(0 <= x / d <= x && x / d * d <= x < x / d * d + d && 0 <= x % d < d && x == x / d * d
        + x % d) by (nonlinear_arith)
        requires
            0 <= x,
            0 < d,
    ;
}

/// If `x >= k * d` then `x / d >= k`.
pub proof fn lemma_div_at_least(x: int, d: int, k: int)
    requires
        0 <= x,
        0 < d,
        0 <= k,
        k * d <= x,
    ensures
        k <= x / d,
{
    lemma_div_bounds(x, d);
    if x / d < k {
        assert((x / d + 1) * d <= k * d) by (nonlinear_arith)
            requires
                x / d + 1 <= k,
                0 < d,
        ;
        assert((x / d + 1) * d == x / d * d + d) by (nonlinear_arith);
    }
}

/// If `x < k * d` then `x / d < k`.
pub proof fn lemma_div_below(x: int, d: int, k: int)
    requires
        0 <= x,
        0 < d,
        x < k * d,
    ensures
        x / d < k,
{
    lemma_div_bounds(x, d);
    if x / d >= k {
        assert(k * d <= x / d * d) by (nonlinear_arith)
            requires
                k <= x / d,
                0 < d,
        ;
    }
}

/// Division by a positive integer is monotone.
pub proof fn lemma_div_monotone(x: int, y: int, d: int)
    requires
        0 <= x <= y,
        0 < d,
    ensures
        x / d <= y / d,
{
    lemma_div_bounds(x, d);
    lemma_div_bounds(y, d);
    lemma_div_at_least(y, d, x / d);
}

pub proof fn lemma_ceil_div_bounds(x: int, d: int)
    requires
        0 <= x,
        0 < d,
    ensures
        x / d <= ceil_div(x, d) <= x / d + 1,
        ceil_div(x, d) * d >= x,
        ceil_div(x, d) >= 0,
        x > 0 ==> ceil_div(x, d) >= 1,
{
    lemma_div_bounds(x, d);
    if x % d != 0 {
        assert((x / d + 1) * d == x / d * d + d) by (nonlinear_arith);
    }
    if x > 0 && x / d == 0 {
        assert(x % d != 0);
    }
}

/// The ceiling quotient is the least multiple count covering `x`: one less falls short.
pub proof fn lemma_ceil_div_tight(x: int, d: int)
    requires
        0 <= x,
        0 < d,
    ensures
        (ceil_div(x, d) - 1) * d < x || x == 0,
{
    lemma_div_bounds(x, d);
    let q = x / d;
    if x % d == 0 {
        if x > 0 {
            assert((q - 1) * d == q * d - d) by (nonlinear_arith);
        }
    } else {
        assert((q + 1 - 1) * d == q * d);
    }
}

/// The ceiling quotient stays within any `k` whose multiple covers `x`.
pub proof fn lemma_ceil_div_at_most(x: int, d: int, k: int)
    requires
        0 <= x,
        0 < d,
        x <= k * d,
    ensures
        ceil_div(x, d) <= k,
{
    lemma_div_bounds(x, d);
    let q = x / d;
    if x % d == 0 {
        assert(q <= k) by (nonlinear_arith)
            requires
                q * d == x,
                x <= k * d,
                d > 0,
        ;
    } else {
        assert(q < k) by (nonlinear_arith)
            requires
                q * d < x,
                x <= k * d,
                d > 0,
        ;
    }
}

pub proof fn lemma_ceil_div_monotone(x: int, y: int, d: int)
    requires
        0 <= x <= y,
        0 < d,
    ensures
        ceil_div(x, d) <= ceil_div(y, d),
{
    lemma_ceil_div_bounds(x, d);
    lemma_ceil_div_bounds(y, d);
    lemma_div_monotone(x, y, d);
    if ceil_div(x, d) > ceil_div(y, d) {
        // then x / d == y / d, x has a remainder and y does not
        lemma_div_bounds(x, d);
        lemma_div_bounds(y, d);
    }
}

/// Exact `u128` ceiling division.
pub fn div_ceil_u128(n: u128, d: u128) -> (q: u128)
    requires
        d > 0,
    ensures
        q == ceil_div(n as int, d as int),
{
    proof {
        lemma_div_bounds(n as int, d as int);
        lemma_ceil_div_bounds(n as int, d as int);
    }
    let q = n / d;
    if n % d == 0 {
        q
    } else {
        proof {
            if q == u128::MAX {
                // q * d <= n forces d == 1, which leaves no remainder
                assert(q * d <= n);
                assert(d == 1) by (nonlinear_arith)
                    requires
                        q * d <= n,
                        q == u128::MAX,
                        n <= u128::MAX,
                        d >= 1,
                ;
            }
        }
        q + 1
    }
}

} // verus!
