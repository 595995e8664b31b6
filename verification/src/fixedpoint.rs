//! Fixed-point arithmetic helpers: truncating division on `i128` and
//! the bound lemmas that keep the polynomial terms inside `i128`.

use vstd::arithmetic::div_mod::lemma_div_is_ordered;
use vstd::arithmetic::div_mod::lemma_div_nonincreasing;
use vstd::arithmetic::div_mod::lemma_div_pos_is_pos;
use vstd::prelude::*;

use crate::model::tdiv;

verus! {

/// A product of two values is bounded by the product of their bounds.
pub(crate) proof fn lemma_mul_bounds(x: int, y: int, xb: int, yb: int)
    by (nonlinear_arith)
    requires
        -xb <= x <= xb,
        -yb <= y <= yb,
        0 <= xb,
        0 <= yb,
    ensures
        -(xb * yb) <= x * y <= xb * yb,
{
}

/// A truncating quotient is bounded by the quotient of a bound on the
/// dividend.
pub(crate) proof fn lemma_tdiv_bound(a: int, d: int, m: int)
    requires
        0 < d,
        0 <= m,
        -m <= a <= m,
    ensures
        -(m / d) <= tdiv(a, d) <= m / d,
{
    lemma_div_pos_is_pos(m, d);
    if 0 <= a {
        lemma_div_pos_is_pos(a, d);
        lemma_div_is_ordered(a, m, d);
    } else {
        lemma_div_pos_is_pos(-a, d);
        lemma_div_is_ordered(-a, m, d);
    }
}

/// Division truncating toward zero, as `tdiv` of the model has it.
/// The quotient never exceeds the dividend in magnitude.
pub(crate) fn tdiv128(a: i128, d: i128) -> (r: i128)
    requires
        0 < d,
        i128::MIN < a,
    ensures
        r == tdiv(a as int, d as int),
        0 <= a ==> 0 <= r <= a,
        a < 0 ==> a <= r <= 0,
{
    if a >= 0 {
        proof {
            lemma_div_pos_is_pos(a as int, d as int);
            lemma_div_nonincreasing(a as int, d as int);
        }
        a / d
    } else {
        let m: i128 = -a;
        proof {
            lemma_div_pos_is_pos(m as int, d as int);
            lemma_div_nonincreasing(m as int, d as int);
        }
        -(m / d)
    }
}

} // verus!
