//! Saturating fixed-point scalars.

use vstd::prelude::*;

verus! {

/// The fixed-point representation of 1: scalars count millionths.
pub const SCALE: i64 = 1_000_000;

/// The nearest value to `x` that a scalar can hold.
pub open spec fn saturate(x: int) -> int {
    if x < i64::MIN {
        i64::MIN as int
    } else if x > i64::MAX {
        i64::MAX as int
    } else {
        x
    }
}

/// `x` divided by `SCALE`, rounded toward zero.
pub open spec fn descale(x: int) -> int {
    if x >= 0 {
        x / (SCALE as int)
    } else {
        -((-x) / (SCALE as int))
    }
}

/// The exact fixed-point product of `a` and `b`, rounded toward zero.
pub open spec fn fixed_mul(a: int, b: int) -> int {
    descale(a * b)
}

/// Narrows a wide intermediate result to a scalar.
pub fn narrow(x: i128) -> (r: i64)
    ensures
        r == saturate(x as int),
{
    if x < -9_223_372_036_854_775_808i128 {
        i64::MIN
    } else if x > 9_223_372_036_854_775_807i128 {
        i64::MAX
    } else {
        x as i64
    }
}

/// The product of two scalars, before narrowing.
pub fn wide_mul(a: i64, b: i64) -> (r: i128)
    ensures
        r == fixed_mul(a as int, b as int),
        -0x2000_0000_0000_0000_0000_0000_0000_0000 <= r <= 0x2000_0000_0000_0000_0000_0000_0000_0000,
{
    assert(-0x4000_0000_0000_0000_0000_0000_0000_0000 <= (a as int) * (b as int)
        <= 0x4000_0000_0000_0000_0000_0000_0000_0000) by (nonlinear_arith)
        requires
            -0x8000_0000_0000_0000 <= a <= 0x7fff_ffff_ffff_ffff,
            -0x8000_0000_0000_0000 <= b <= 0x7fff_ffff_ffff_ffff,
    ;
    let p: i128 = (a as i128) * (b as i128);
    if p >= 0 {
        p / 1_000_000i128
    } else {
        let m: i128 = -p;
        -(m / 1_000_000i128)
    }
}

/// Saturating fixed-point multiplication.
pub fn mul_fixed(a: i64, b: i64) -> (r: i64)
    ensures
        r == saturate(fixed_mul(a as int, b as int)),
{
    narrow(wide_mul(a, b))
}

/// A product with the factor one is the other factor.
pub proof fn lemma_fixed_mul_one(a: int)
    ensures
        fixed_mul(a, SCALE as int) == a,
        fixed_mul(SCALE as int, a) == a,
{
    assert(a * 1_000_000 == 1_000_000 * a) by (nonlinear_arith);
    assert((a * 1_000_000) / 1_000_000 == a && (-(a * 1_000_000)) / 1_000_000 == -a)
        by (nonlinear_arith);
}

/// A product with a zero factor is zero.
pub proof fn lemma_fixed_mul_zero(a: int)
    ensures
        fixed_mul(a, 0) == 0,
        fixed_mul(0, a) == 0,
{
    assert(a * 0 == 0 && 0 * a == 0) by (nonlinear_arith);
}

/// Multiplying by a factor that is not negative keeps the sign of the
/// other factor, and negating a factor negates the product.
pub proof fn lemma_fixed_mul_sign(a: int, b: int)
    requires
        b >= 0,
    ensures
        a >= 0 ==> fixed_mul(a, b) >= 0,
        a <= 0 ==> fixed_mul(a, b) <= 0,
        fixed_mul(-a, b) == -fixed_mul(a, b),
{
    assert(a >= 0 ==> a * b >= 0) by (nonlinear_arith)
        requires
            b >= 0,
    ;
    assert(a <= 0 ==> a * b <= 0) by (nonlinear_arith)
        requires
            b >= 0,
    ;
    assert((-a) * b == -(a * b)) by (nonlinear_arith);
    lemma_descale_sign(a * b);
}

/// The magnitude of `x`.
pub open spec fn magnitude(x: int) -> int {
    if x < 0 {
        -x
    } else {
        x
    }
}

/// A fixed-point product is no larger in magnitude than the exact product
/// of the magnitudes, rescaled.
pub proof fn lemma_fixed_mul_bound(a: int, b: int)
    requires
        b >= 0,
    ensures
        magnitude(fixed_mul(a, b)) * SCALE <= magnitude(a) * b,
{
    let m = magnitude(a);
    assert(magnitude(a * b) == m * b) by (nonlinear_arith)
        requires
            b >= 0,
            m == magnitude(a),
    ;
    let p = m * b;
    assert(p >= 0) by (nonlinear_arith)
        requires
            p == m * b,
            m >= 0,
            b >= 0,
    ;
    assert((p / 1_000_000) * 1_000_000 <= p) by (nonlinear_arith)
        requires
            p >= 0,
    ;
    lemma_descale_sign(a * b);
}

/// Narrowing keeps the sign and never grows the magnitude.
pub proof fn lemma_saturate_shrinks(x: int)
    ensures
        magnitude(saturate(x)) <= magnitude(x),
        x >= 0 ==> saturate(x) >= 0,
        x <= 0 ==> saturate(x) <= 0,
{
}

/// Rescaling keeps the sign, commutes with negation and never grows the
/// magnitude.
pub proof fn lemma_descale_sign(x: int)
    ensures
        x >= 0 ==> 0 <= descale(x) <= x,
        x <= 0 ==> x <= descale(x) <= 0,
        descale(-x) == -descale(x),
{
    if x >= 0 {
        assert(0 <= x / 1_000_000 <= x) by (nonlinear_arith)
            requires
                x >= 0,
        ;
    } else {
        let m = -x;
        assert(0 <= m / 1_000_000 <= m) by (nonlinear_arith)
            requires
                m >= 0,
        ;
    }
}

} // verus!
