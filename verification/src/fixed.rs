//! Fixed-point conventions shared by the whole engine.
//!
//! A scaled value is an integer that counts millionths: `SCALE` stands for
//! 1.0. Products of scaled values are formed in 128 bits and divided once,
//! rounding toward negative infinity.

use vstd::prelude::*;
use vstd::arithmetic::div_mod::{
    lemma_div_is_ordered, lemma_fundamental_div_mod, lemma_fundamental_div_mod_converse,
};

verus! {

/// The fixed-point representation of 1.0.
pub const SCALE: i64 = 1_000_000;

/// The largest weight a risk coordinate may carry (one million, scaled).
pub const MAX_WEIGHT: i64 = 1_000_000_000_000;

/// The unit interval `[0, 1]` in fixed point.
pub open spec fn in_unit_interval(x: int) -> bool {
    0 <= x <= SCALE as int
}

/// `x` clamped to the unit interval.
pub open spec fn clip01_spec(x: int) -> int {
    if x < 0 {
        0
    } else if x > SCALE as int {
        SCALE as int
    } else {
        x
    }
}

/// Clamping never leaves the unit interval and keeps the order of its inputs.
pub proof fn lemma_clip01_monotone(a: int, b: int)
    requires
        a <= b,
    ensures
        clip01_spec(a) <= clip01_spec(b),
        in_unit_interval(clip01_spec(a)),
{
}

/// Clamps a scaled value to `[0, SCALE]`.
pub fn clip01(x: i128) -> (r: i64)
    ensures
        r as int == clip01_spec(x as int),
        in_unit_interval(r as int),
{
    if x < 0 {
        0
    } else if x > SCALE as i128 {
        SCALE
    } else {
        x as i64
    }
}

/// Division rounding toward negative infinity, for a positive divisor.
pub fn div_floor(a: i128, d: i128) -> (q: i128)
    requires
        d > 0,
    ensures
        q as int == a as int / d as int,
{
    if a >= 0 {
        a / d
    } else {
        // For negative `a`, floor(a / d) == -((-a - 1) / d) - 1.
        let n: i128 = -(a + 1);
        let m: i128 = n / d;
        let q: i128 = -m - 1;
        proof {
            let ni = n as int;
            let di = d as int;
            lemma_fundamental_div_mod(ni, di);
            // ni == di * (ni / di) + ni % di, with 0 <= ni % di < di
            let r = ni % di;
            assert(0 <= r < di);
            // a == -ni - 1 == di * (-(ni/di) - 1) + (di - 1 - r)
            assert(a as int == di * (q as int) + (di - 1 - r)) by (nonlinear_arith)
                requires
                    a as int == -ni - 1,
                    ni == di * (m as int) + r,
                    q as int == -(m as int) - 1,
            ;
            lemma_fundamental_div_mod_converse(a as int, di, q as int, di - 1 - r);
        }
        q
    }
}

/// Whether a mathematical integer lies in the symmetric 128-bit range that
/// the engine computes in.
pub open spec fn representable(x: int) -> bool {
    -(i128::MAX as int) <= x <= i128::MAX as int
}

/// `x` as a machine value where it is representable, `None` where it is not.
pub open spec fn checked(x: int) -> Option<i128> {
    if representable(x) {
        Some(x as i128)
    } else {
        None
    }
}

/// The product of two scaled values, rescaled.
pub open spec fn mul_scaled(a: int, b: int) -> int {
    (a * b) / (SCALE as int)
}

/// A value outside the range stays outside it when multiplied by a non-zero factor.
pub proof fn lemma_product_outgrows(a: int, c: int)
    requires
        !representable(a),
        c != 0,
    ensures
        !representable(a * c),
{
    assert(!representable(a * c)) by (nonlinear_arith)
        requires
            a > i128::MAX as int || a < -(i128::MAX as int),
            c != 0,
            representable(a * c) <==> -(i128::MAX as int) <= a * c <= i128::MAX as int,
    ;
}

/// A quotient by a positive divisor is no larger in magnitude than the dividend.
pub proof fn lemma_quotient_representable(p: int, d: int)
    requires
        representable(p),
        d > 0,
    ensures
        representable(p / d),
        p >= 0 ==> 0 <= p / d <= p,
        p <= 0 ==> p <= p / d <= 0,
{
    lemma_fundamental_div_mod(p, d);
    let q = p / d;
    let r = p % d;
    assert(0 <= r < d);
    if p >= 0 {
        assert(0 <= q <= p) by (nonlinear_arith)
            requires
                p == d * q + r,
                0 <= r < d,
                d > 0,
                p >= 0,
        ;
    } else {
        assert(p <= q <= 0) by (nonlinear_arith)
            requires
                p == d * q + r,
                0 <= r < d,
                d > 0,
                p < 0,
        ;
    }
}

/// The product of two values, or `None` where it is not representable.
pub fn checked_product(a: i128, b: i128) -> (r: Option<i128>)
    ensures
        r == checked(a as int * b as int),
{
    match a.checked_mul(b) {
        Some(p) => if p == i128::MIN {
            None
        } else {
            Some(p)
        },
        None => None,
    }
}

/// The sum of two values, or `None` where it is not representable.
pub fn checked_sum(a: i128, b: i128) -> (r: Option<i128>)
    ensures
        r == checked(a as int + b as int),
{
    match a.checked_add(b) {
        Some(p) => if p == i128::MIN {
            None
        } else {
            Some(p)
        },
        None => None,
    }
}

/// The product of three values, or `None` where it is not representable.
pub fn checked_product3(a: i128, b: i128, c: i128) -> (r: Option<i128>)
    ensures
        r == checked(a as int * b as int * c as int),
{
    if a == 0 || b == 0 || c == 0 {
        assert(a as int * b as int * c as int == 0) by (nonlinear_arith)
            requires
                a as int == 0 || b as int == 0 || c as int == 0,
        ;
        return Some(0);
    }
    match checked_product(a, b) {
        None => {
            proof {
                lemma_product_outgrows(a as int * b as int, c as int);
            }
            None
        },
        Some(ab) => checked_product(ab, c),
    }
}

/// The product of four values, or `None` where it is not representable.
pub fn checked_product4(a: i128, b: i128, c: i128, d: i128) -> (r: Option<i128>)
    ensures
        r == checked(a as int * b as int * c as int * d as int),
{
    if d == 0 {
        assert(a as int * b as int * c as int * d as int == 0) by (nonlinear_arith)
            requires
                d as int == 0,
        ;
        return Some(0);
    }
    match checked_product3(a, b, c) {
        None => {
            proof {
                lemma_product_outgrows(a as int * b as int * c as int, d as int);
            }
            None
        },
        Some(abc) => checked_product(abc, d),
    }
}

/// The product of five values, or `None` where it is not representable.
pub fn checked_product5(a: i128, b: i128, c: i128, d: i128, e: i128) -> (r: Option<i128>)
    ensures
        r == checked(a as int * b as int * c as int * d as int * e as int),
{
    if e == 0 {
        assert(a as int * b as int * c as int * d as int * e as int == 0) by (nonlinear_arith)
            requires
                e as int == 0,
        ;
        return Some(0);
    }
    match checked_product4(a, b, c, d) {
        None => {
            proof {
                lemma_product_outgrows(a as int * b as int * c as int * d as int, e as int);
            }
            None
        },
        Some(abcd) => checked_product(abcd, e),
    }
}

/// `a * b / d` rounded toward negative infinity, or `None` where the
/// product is not representable.
pub fn checked_mul_div(a: i128, b: i128, d: i128) -> (r: Option<i128>)
    requires
        d > 0,
    ensures
        r == (if representable(a as int * b as int) {
            Some(((a as int * b as int) / (d as int)) as i128)
        } else {
            None
        }),
        r is Some ==> representable(r->Some_0 as int),
{
    match checked_product(a, b) {
        None => None,
        Some(p) => {
            proof {
                lemma_quotient_representable(p as int, d as int);
            }
            Some(div_floor(p, d))
        },
    }
}

/// The rescaled product of two scaled 64-bit values; it always fits.
pub fn mul_scaled_i64(a: i64, b: i64) -> (r: i128)
    ensures
        r as int == mul_scaled(a as int, b as int),
        -0x800_0000_0000_0000_0000_0000_0000 <= r <= 0x800_0000_0000_0000_0000_0000_0000,
{
    proof {
        let bound: int = 0x4000_0000_0000_0000_0000_0000_0000_0000;
        assert(-bound <= a as int * b as int <= bound) by (nonlinear_arith)
            requires
                -0x8000_0000_0000_0000 <= a as int <= 0x8000_0000_0000_0000,
                -0x8000_0000_0000_0000 <= b as int <= 0x8000_0000_0000_0000,
                bound == 0x8000_0000_0000_0000 * 0x8000_0000_0000_0000,
        ;
        lemma_div_is_ordered(a as int * b as int, bound, SCALE as int);
        lemma_div_is_ordered(-bound, a as int * b as int, SCALE as int);
    }
    let p: i128 = (a as i128) * (b as i128);
    div_floor(p, SCALE as i128)
}

} // verus!
