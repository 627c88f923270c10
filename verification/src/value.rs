//! What a bit pattern stands for, and why comparing ranks compares numbers.
//!
//! A finite binary64 pattern has a sign bit, eleven bits of exponent and 52
//! bits of fraction. With the exponent `e` and the fraction `m`, the pattern
//! stands for `m * 2^-1074` where `e` is 0, and for `(2^52 + m) * 2^(e - 1075)`
//! elsewhere, taken negative under the sign bit. Times `2^1074` that is a whole
//! number, which is what this module computes with.
use vstd::prelude::*;
use vstd::arithmetic::power2::{lemma_pow2_pos, lemma_pow2_strictly_increases, lemma_pow2_unfold, pow2};
use crate::scalar::Scalar;

verus! {

/// Two to the power of 52: the number of fractions under one exponent.
pub const FRACTIONS: u64 = 0x10_0000_0000_0000;

/// The exponent field of a magnitude.
pub open spec fn exponent(magnitude: int) -> int {
    magnitude / (FRACTIONS as int)
}

/// The fraction field of a magnitude.
pub open spec fn fraction(magnitude: int) -> int {
    magnitude % (FRACTIONS as int)
}

/// The number that a magnitude stands for, times two to the power of 1074.
pub open spec fn scaled_magnitude(magnitude: int) -> int {
    if exponent(magnitude) == 0 {
        fraction(magnitude)
    } else {
        (FRACTIONS + fraction(magnitude)) * pow2((exponent(magnitude) - 1) as nat)
    }
}

/// The number that a finite pattern stands for, times two to the power of 1074.
pub open spec fn scaled_value(x: Scalar) -> int {
    if x.sign() {
        -scaled_magnitude(x.magnitude())
    } else {
        scaled_magnitude(x.magnitude())
    }
}

proof fn lemma_scaled_magnitude_bounds(x: int)
    requires
        0 <= x,
    ensures
        exponent(x) == 0 ==> 0 <= scaled_magnitude(x) < FRACTIONS,
        exponent(x) > 0 ==> FRACTIONS * pow2((exponent(x) - 1) as nat) <= scaled_magnitude(x) < 2
            * FRACTIONS * pow2((exponent(x) - 1) as nat),
        0 <= exponent(x),
        0 <= fraction(x) < FRACTIONS,
        x == exponent(x) * FRACTIONS + fraction(x),
{
    let e = exponent(x);
    let m = fraction(x);
    vstd::arithmetic::div_mod::lemma_fundamental_div_mod(x, FRACTIONS as int);
    vstd::arithmetic::div_mod::lemma_mod_bound(x, FRACTIONS as int);
    vstd::arithmetic::div_mod::lemma_div_pos_is_pos(x, FRACTIONS as int);
    assert(FRACTIONS * e == e * FRACTIONS) by (nonlinear_arith);
    if e > 0 {
        let p = pow2((e - 1) as nat) as int;
        lemma_pow2_pos((e - 1) as nat);
        assert(FRACTIONS * p <= (FRACTIONS + m) * p < 2 * FRACTIONS * p) by (nonlinear_arith)
            requires
                0 <= m < FRACTIONS,
                p > 0,
        ;
    }
}

/// Of two magnitudes, the lesser stands for the lesser number.
proof fn lemma_scaled_magnitude_increases(x: int, y: int)
    requires
        0 <= x < y,
    ensures
        scaled_magnitude(x) < scaled_magnitude(y),
{
    lemma_scaled_magnitude_bounds(x);
    lemma_scaled_magnitude_bounds(y);
    let ex = exponent(x);
    let ey = exponent(y);
    let mx = fraction(x);
    let my = fraction(y);
    assert(ex <= ey) by (nonlinear_arith)
        requires
            x == ex * FRACTIONS + mx,
            y == ey * FRACTIONS + my,
            0 <= mx < FRACTIONS,
            0 <= my < FRACTIONS,
            x < y,
    ;
    if ex == ey {
        assert(mx < my) by (nonlinear_arith)
            requires
                x == ex * FRACTIONS + mx,
                y == ey * FRACTIONS + my,
                ex == ey,
                x < y,
        ;
        if ex > 0 {
            let p = pow2((ex - 1) as nat) as int;
            lemma_pow2_pos((ex - 1) as nat);
            assert((FRACTIONS + mx) * p < (FRACTIONS + my) * p) by (nonlinear_arith)
                requires
                    mx < my,
                    p > 0,
            ;
        }
    } else if ex == 0 {
        let q = pow2((ey - 1) as nat) as int;
        lemma_pow2_pos((ey - 1) as nat);
        assert(FRACTIONS <= FRACTIONS * q) by (nonlinear_arith)
            requires
                q >= 1,
        ;
    } else {
        let p = pow2((ex - 1) as nat) as int;
        let q = pow2((ey - 1) as nat) as int;
        lemma_pow2_unfold(ex as nat);
        if ex < ey - 1 {
            lemma_pow2_strictly_increases(ex as nat, (ey - 1) as nat);
        }
        assert(2 * p <= q);
        assert(2 * FRACTIONS * p <= FRACTIONS * q) by (nonlinear_arith)
            requires
                2 * p <= q,
        ;
    }
}

/// The order of ranks is the order of the numbers: of two finite patterns,
/// one has the lesser rank exactly when it stands for the lesser number, and
/// the two have the same rank exactly when they stand for the same number.
pub proof fn rank_orders_as_the_numbers(a: Scalar, b: Scalar)
    requires
        a.finite(),
        b.finite(),
    ensures
        a.rank() < b.rank() <==> scaled_value(a) < scaled_value(b),
        a.rank() == b.rank() <==> scaled_value(a) == scaled_value(b),
        a.less(b) <==> scaled_value(a) < scaled_value(b),
        a.equals(b) <==> scaled_value(a) == scaled_value(b),
{
    let x = a.magnitude();
    let y = b.magnitude();
    lemma_scaled_magnitude_bounds(x);
    lemma_scaled_magnitude_bounds(y);
    lemma_zero_magnitude(x);
    lemma_zero_magnitude(y);
    if x < y {
        lemma_scaled_magnitude_increases(x, y);
    } else if y < x {
        lemma_scaled_magnitude_increases(y, x);
    }
    if exponent(x) > 0 {
        lemma_pow2_pos((exponent(x) - 1) as nat);
    }
    if exponent(y) > 0 {
        lemma_pow2_pos((exponent(y) - 1) as nat);
    }
}

/// Only the magnitude 0 stands for the number 0.
proof fn lemma_zero_magnitude(x: int)
    requires
        0 <= x,
    ensures
        scaled_magnitude(x) == 0 <==> x == 0,
        scaled_magnitude(x) >= 0,
{
    lemma_scaled_magnitude_bounds(x);
    if exponent(x) > 0 {
        let p = pow2((exponent(x) - 1) as nat) as int;
        lemma_pow2_pos((exponent(x) - 1) as nat);
        assert(FRACTIONS * p > 0) by (nonlinear_arith)
            requires
                p > 0,
        ;
    } else {
        assert(x == fraction(x)) by (nonlinear_arith)
            requires
                x == exponent(x) * FRACTIONS + fraction(x),
                exponent(x) == 0,
        ;
    }
}

/// An infinity lies beyond every finite number on its side, and the ranks say
/// so: the positive one has a greater rank than every finite pattern, the
/// negative one a lesser.
pub proof fn infinities_bound_the_finite(x: Scalar, infinity: Scalar)
    requires
        x.finite(),
        !infinity.nan(),
        !infinity.finite(),
    ensures
        !infinity.sign() ==> x.less(infinity),
        infinity.sign() ==> infinity.less(x),
{
}

/// The patterns of the named numbers stand for those numbers: 1 for
/// `2^1074 / 2^1074`, the machine epsilon for `2^1022 / 2^1074`.
pub proof fn named_numbers()
    ensures
        scaled_value(Scalar::zero()) == 0,
        scaled_value(Scalar::one()) == pow2(1074),
        scaled_value(Scalar::epsilon()) == pow2(1022),
        scaled_value(Scalar { bits: crate::scalar::NEG_ONE_BITS }) == -pow2(1074),
{
    let one = Scalar::one().magnitude();
    assert(exponent(one) == 1023 && fraction(one) == 0);
    assert(FRACTIONS == pow2(52)) by {
        vstd::arithmetic::power2::lemma2_to64_rest();
    }
    vstd::arithmetic::power2::lemma_pow2_adds(52, 1022);
    let eps = Scalar::epsilon().magnitude();
    assert(exponent(eps) == 971 && fraction(eps) == 0);
    vstd::arithmetic::power2::lemma_pow2_adds(52, 970);
    let neg = (Scalar { bits: crate::scalar::NEG_ONE_BITS }).magnitude();
    assert(neg == one);
    let zero = Scalar::zero().magnitude();
    assert(exponent(zero) == 0 && fraction(zero) == 0);
}

/// The larger of two numbers is one of the two and is less than neither; the
/// smaller is one of the two and neither is less than it.
pub proof fn larger_and_smaller_bound_both(a: Scalar, b: Scalar)
    requires
        !a.nan(),
        !b.nan(),
    ensures
        a.larger(b) == a || a.larger(b) == b,
        a.at_most(a.larger(b)) && b.at_most(a.larger(b)),
        a.smaller(b) == a || a.smaller(b) == b,
        a.smaller(b).at_most(a) && a.smaller(b).at_most(b),
        a.smaller(b).at_most(a.larger(b)),
{
}

/// Negation mirrors the order and the absolute value is never below zero: the
/// two change the sign bit and nothing else.
pub proof fn negation_mirrors_the_order(a: Scalar, b: Scalar)
    ensures
        a.negated().negated() == a,
        a.negated().nan() == a.nan(),
        a.less(b) <==> b.negated().less(a.negated()),
        !a.nan() ==> a.absolute().non_negative(),
        !a.nan() ==> a.absolute().rank() == a.rank() || a.absolute().rank() == -a.rank(),
        a.absolute().absolute() == a.absolute(),
{
}

} // verus!
