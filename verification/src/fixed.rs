//! Overflow-checked fixed-point arithmetic on `i128`.
//!
//! Every amount, price and rate of the venue is a signed 128-bit fixed-point
//! number. The functions here never wrap and never panic: a result that does
//! not fit is reported as `None`, and the callers turn it into
//! [`Error::Overflow`](crate::error::Error).

use vstd::prelude::*;

verus! {

/// Whether `x` can be held in an `i128`.
pub open spec fn fits(x: int) -> bool {
    i128::MIN <= x <= i128::MAX
}

/// The absolute value of `x`.
pub open spec fn abs(x: int) -> int {
    if x < 0 {
        -x
    } else {
        x
    }
}

/// The larger of `a` and `b`.
pub open spec fn max(a: int, b: int) -> int {
    if a >= b {
        a
    } else {
        b
    }
}

/// The smaller of `a` and `b`.
pub open spec fn min(a: int, b: int) -> int {
    if a <= b {
        a
    } else {
        b
    }
}

/// `x` limited to the band `[-bound, bound]`, the lower limit applied first:
/// `min(max(x, -bound), bound)`. For a negative `bound` the result is `bound`.
pub open spec fn clamp(x: int, bound: int) -> int {
    min(max(x, -bound), bound)
}

/// The quotient of `a` by `b` rounded toward zero; 0 where `b` is 0.
pub open spec fn tdiv(a: int, b: int) -> int {
    if b == 0 {
        0
    } else if a >= 0 && b > 0 {
        a / b
    } else if a < 0 && b < 0 {
        (-a) / (-b)
    } else if a < 0 {
        -((-a) / b)
    } else {
        -(a / (-b))
    }
}

/// `a * b` rounded toward zero after division by `d`.
pub open spec fn mul_div(a: int, b: int, d: int) -> int {
    tdiv(a * b, d)
}

/// Rounding toward zero never grows a quotient: for a positive divisor the
/// quotient times the divisor lies within one divisor of the dividend, on the
/// dividend's side of zero.
pub proof fn lemma_tdiv_bounds(a: int, b: int)
    requires
        b > 0,
    ensures
        a >= 0 ==> 0 <= tdiv(a, b) * b <= a < tdiv(a, b) * b + b,
        a <= 0 ==> a <= tdiv(a, b) * b <= 0 && tdiv(a, b) * b - b < a,
        abs(tdiv(a, b)) <= abs(a),
{
    if a >= 0 {
        assert(0 <= (a / b) * b <= a < (a / b) * b + b && a / b <= a) by (nonlinear_arith)
            requires
                a >= 0,
                b > 0,
        ;
    } else {
        let n = -a;
        assert(0 <= (n / b) * b <= n < (n / b) * b + b && n / b <= n) by (nonlinear_arith)
            requires
                n >= 0,
                b > 0,
        ;
        assert((-(n / b)) * b == -((n / b) * b)) by (nonlinear_arith);
    }
}

/// Rounding toward zero is monotonic in the dividend.
pub proof fn lemma_tdiv_monotonic(a1: int, a2: int, b: int)
    requires
        b > 0,
        a1 <= a2,
    ensures
        tdiv(a1, b) <= tdiv(a2, b),
{
    lemma_tdiv_bounds(a1, b);
    lemma_tdiv_bounds(a2, b);
    let q1 = tdiv(a1, b);
    let q2 = tdiv(a2, b);
    assert(q1 <= q2) by (nonlinear_arith)
        requires
            b > 0,
            a1 <= a2,
            a1 >= 0 ==> 0 <= q1 * b <= a1 < q1 * b + b,
            a1 <= 0 ==> a1 <= q1 * b <= 0 && q1 * b - b < a1,
            a2 >= 0 ==> 0 <= q2 * b <= a2 < q2 * b + b,
            a2 <= 0 ==> a2 <= q2 * b <= 0 && q2 * b - b < a2,
    ;
}

/// The magnitude of a quotient rounded toward zero, for any nonzero divisor,
/// is the quotient of the magnitudes, and never exceeds the dividend's.
pub proof fn lemma_tdiv_abs(a: int, b: int)
    requires
        b != 0,
    ensures
        abs(tdiv(a, b)) == abs(a) / abs(b),
        abs(tdiv(a, b)) <= abs(a),
{
    let n = abs(a);
    let d = abs(b);
    assert(0 <= n / d <= n) by (nonlinear_arith)
        requires
            n >= 0,
            d > 0,
    ;
}

/// Dividing a product by one of its factors gives the other.
pub proof fn lemma_tdiv_exact(a: int, b: int)
    requires
        b > 0,
    ensures
        tdiv(a * b, b) == a,
{
    if a >= 0 {
        assert(a * b >= 0 && (a * b) / b == a) by (nonlinear_arith)
            requires
                a >= 0,
                b > 0,
        ;
        if a * b == 0 {
            assert(a == 0) by (nonlinear_arith)
                requires
                    a * b == 0,
                    b > 0,
            ;
        }
    } else {
        let n = -a;
        assert(a * b < 0 && -(a * b) == n * b && (n * b) / b == n) by (nonlinear_arith)
            requires
                n == -a,
                n > 0,
                b > 0,
        ;
    }
}

/// `|x|`, or `None` for `i128::MIN`, whose magnitude has no `i128`.
pub fn checked_abs(x: i128) -> (r: Option<i128>)
    ensures
        r == (if fits(abs(x as int)) {
            Some(abs(x as int) as i128)
        } else {
            None
        }),
{
    if x == i128::MIN {
        None
    } else if x < 0 {
        Some(-x)
    } else {
        Some(x)
    }
}

/// `a / b` rounded toward zero, or `None` where `b` is 0 or the quotient does
/// not fit.
pub fn checked_tdiv(a: i128, b: i128) -> (r: Option<i128>)
    ensures
        r == (if b != 0 && fits(tdiv(a as int, b as int)) {
            Some(tdiv(a as int, b as int) as i128)
        } else {
            None
        }),
{
    a.checked_div(b)
}

/// `a * b / d` with the product checked and the quotient rounded toward zero;
/// `None` where the product or the quotient does not fit, or `d` is 0.
pub fn checked_mul_div(a: i128, b: i128, d: i128) -> (r: Option<i128>)
    ensures
        r == (if fits(a * b) && d != 0 && fits(mul_div(a as int, b as int, d as int)) {
            Some(mul_div(a as int, b as int, d as int) as i128)
        } else {
            None
        }),
{
    match a.checked_mul(b) {
        Some(p) => checked_tdiv(p, d),
        None => None,
    }
}

/// `x` limited to `[-bound, bound]`, lower limit first.
pub fn clamp_to(x: i128, bound: i128) -> (r: i128)
    ensures
        r == clamp(x as int, bound as int),
{
    if bound == i128::MIN {
        return bound;
    }
    let low: i128 = -bound;
    let raised: i128 = if x >= low {
        x
    } else {
        low
    };
    if raised <= bound {
        raised
    } else {
        bound
    }
}

} // verus!
