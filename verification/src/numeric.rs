//! The numbers that the encodings stand for, and the proof that the order of
//! the encodings by rank is the order of those numbers.
//!
//! A double-precision number is `±significand · 2^(exponent − 1075)` for a
//! whole significand below `2^53`, so every number is a whole multiple of
//! `2^-1074`, the smallest positive one. Values are stated in that unit, which
//! makes them integers.

use crate::binary64::{is_nan, magnitude, rank, relation, sign_bit, Relation};
use vstd::arithmetic::mul::{lemma_mul_inequality, lemma_mul_strict_inequality};
use vstd::arithmetic::power2::{lemma_pow2_pos, lemma_pow2_strictly_increases, lemma_pow2_unfold, pow2};
use vstd::prelude::*;

verus! {

/// `2^52`: one more than the largest fraction, and the weight of the leading
/// significand bit that a normal number does not store.
pub const HIDDEN_BIT: u64 = 0x10_0000_0000_0000;

/// The biased exponent held in a magnitude: its upper 11 bits.
pub open spec fn exponent(m: u64) -> nat {
    (m / HIDDEN_BIT) as nat
}

/// The fraction held in a magnitude: its lower 52 bits.
pub open spec fn fraction(m: u64) -> nat {
    (m % HIDDEN_BIT) as nat
}

/// The absolute value that a magnitude stands for, in units of `2^-1074`.
///
/// With exponent 0 the number is zero or subnormal and the fraction is the
/// whole significand. Otherwise the hidden bit is added, and each step of the
/// exponent doubles the value. An infinity gets the value that its exponent
/// would give were it not reserved, `2^1024`, which is above every finite
/// number.
pub open spec fn scaled_magnitude(m: u64) -> int {
    if exponent(m) == 0 {
        fraction(m) as int
    } else {
        (HIDDEN_BIT + fraction(m)) * pow2((exponent(m) - 1) as nat)
    }
}

/// The value that an encoding stands for, in units of `2^-1074`. Meaningless
/// for a NaN.
pub open spec fn scaled_value(bits: u64) -> int {
    if sign_bit(bits) {
        -scaled_magnitude(magnitude(bits))
    } else {
        scaled_magnitude(magnitude(bits))
    }
}

/// Every magnitude with a given exponent stands for a value from `2^52` times
/// the exponent's weight up to, but not reaching, twice that.
proof fn lemma_scaled_magnitude_bounds(m: u64)
    requires
        exponent(m) > 0,
    ensures
        HIDDEN_BIT * pow2((exponent(m) - 1) as nat) <= scaled_magnitude(m),
        scaled_magnitude(m) < HIDDEN_BIT * pow2(exponent(m)),
{
    let p = pow2((exponent(m) - 1) as nat) as int;
    let s = HIDDEN_BIT + fraction(m);
    lemma_pow2_pos((exponent(m) - 1) as nat);
    lemma_pow2_unfold(exponent(m));
    lemma_mul_inequality(HIDDEN_BIT as int, s as int, p);
    lemma_mul_strict_inequality(s as int, 2 * HIDDEN_BIT, p);
    assert((2 * HIDDEN_BIT) * p == HIDDEN_BIT * (2 * p)) by (nonlinear_arith);
}

/// A larger magnitude stands for a larger absolute value.
pub proof fn scaled_magnitude_increases(x: u64, y: u64)
    requires
        x < y,
    ensures
        scaled_magnitude(x) < scaled_magnitude(y),
{
    let ex = exponent(x);
    let ey = exponent(y);
    assert(ex <= ey);
    if ex == ey {
        assert(fraction(x) < fraction(y));
        if ex > 0 {
            lemma_pow2_pos((ex - 1) as nat);
            lemma_mul_strict_inequality(
                (HIDDEN_BIT + fraction(x)) as int,
                (HIDDEN_BIT + fraction(y)) as int,
                pow2((ex - 1) as nat) as int,
            );
        }
    } else {
        lemma_scaled_magnitude_bounds(y);
        if ex == 0 {
            lemma_pow2_pos((ey - 1) as nat);
            lemma_mul_inequality(1, pow2((ey - 1) as nat) as int, HIDDEN_BIT as int);
            assert(HIDDEN_BIT * pow2((ey - 1) as nat) == pow2((ey - 1) as nat) * HIDDEN_BIT)
                by (nonlinear_arith);
        } else {
            lemma_scaled_magnitude_bounds(x);
            if ex < ey - 1 {
                lemma_pow2_strictly_increases(ex, (ey - 1) as nat);
            }
            lemma_mul_inequality(
                pow2(ex) as int,
                pow2((ey - 1) as nat) as int,
                HIDDEN_BIT as int,
            );
            assert(HIDDEN_BIT * pow2(ex) == pow2(ex) * HIDDEN_BIT) by (nonlinear_arith);
            assert(HIDDEN_BIT * pow2((ey - 1) as nat) == pow2((ey - 1) as nat) * HIDDEN_BIT)
                by (nonlinear_arith);
        }
    }
}

/// Encodings are ordered by rank exactly as the values they stand for are
/// ordered, and share a rank exactly when they stand for the same value.
pub proof fn rank_orders_by_value(a: u64, b: u64)
    ensures
        rank(a) < rank(b) <==> scaled_value(a) < scaled_value(b),
        rank(a) == rank(b) <==> scaled_value(a) == scaled_value(b),
{
    let ma = magnitude(a);
    let mb = magnitude(b);
    if ma < mb {
        scaled_magnitude_increases(ma, mb);
    } else if mb < ma {
        scaled_magnitude_increases(mb, ma);
    }
    if 0 < ma {
        scaled_magnitude_increases(0, ma);
    }
    if 0 < mb {
        scaled_magnitude_increases(0, mb);
    }
    assert(scaled_magnitude(0) == 0);
}

/// The relation of two numbers is the order of their values.
pub proof fn relation_is_order_of_values(a: u64, b: u64)
    requires
        !is_nan(a),
        !is_nan(b),
    ensures
        relation(a, b) == Relation::Less <==> scaled_value(a) < scaled_value(b),
        relation(a, b) == Relation::Equal <==> scaled_value(a) == scaled_value(b),
        relation(a, b) == Relation::Greater <==> scaled_value(a) > scaled_value(b),
{
    rank_orders_by_value(a, b);
}

} // verus!
