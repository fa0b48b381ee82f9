//! Laws of the comparison operators of [`Complex`], for every pair of values.

use crate::binary64::{
    is_nan, less_than_zero, magnitude, relation_reverses, relation_to_itself, sign_bit,
};
use crate::complex::Complex;
use std::cmp::Ordering;
use vstd::prelude::*;

verus! {

/// `a <= b` holds exactly when `partial_cmp` gives no outcome for the pair:
/// not when it gives `Less`, and not when it gives `Equal`.
pub proof fn le_iff_no_outcome(a: Complex, b: Complex)
    ensures
        a.less_or_equal(b) <==> a.ordering(b) is None,
{
}

/// `a >= b` holds exactly when `partial_cmp` gives `Equal`, which it does
/// when one part of `a` is greater and the other is equal; not when it gives
/// `Greater`.
pub proof fn ge_iff_equal_outcome(a: Complex, b: Complex)
    ensures
        a.greater_or_equal(b) <==> a.ordering(b) == Some(Ordering::Equal),
{
}

/// `a < b` holds exactly when `partial_cmp` gives `Less`, and `a > b` exactly
/// when it gives `Greater`.
pub proof fn lt_gt_iff_strict_outcome(a: Complex, b: Complex)
    ensures
        a.less(b) <==> a.ordering(b) == Some(Ordering::Less),
        a.greater(b) <==> a.ordering(b) == Some(Ordering::Greater),
{
}

/// Of `<`, `>`, `<=` and `>=`, exactly one holds of any pair of values.
pub proof fn exactly_one_order_operator_holds(a: Complex, b: Complex)
    ensures
        a.less(b) || a.greater(b) || a.less_or_equal(b) || a.greater_or_equal(b),
        !(a.less(b) && a.greater(b)),
        !(a.less(b) && a.less_or_equal(b)),
        !(a.less(b) && a.greater_or_equal(b)),
        !(a.greater(b) && a.less_or_equal(b)),
        !(a.greater(b) && a.greater_or_equal(b)),
        !(a.less_or_equal(b) && a.greater_or_equal(b)),
{
}

/// Values that are `==` have no outcome under `partial_cmp`: they are `<=`
/// each other and never `>=`. In particular `partial_cmp` never gives `Equal`
/// for equal values.
pub proof fn equal_values_have_no_outcome(a: Complex, b: Complex)
    requires
        a.equals(b),
    ensures
        a.ordering(b) is None,
        a.less_or_equal(b),
        !a.greater_or_equal(b),
{
}

/// A value without a NaN part is `==` to itself and not `!=`; a value with a
/// NaN part is not `==` to itself.
pub proof fn equality_with_itself(a: Complex)
    ensures
        a.equals(a) <==> !is_nan(a.re) && !is_nan(a.im),
        a.differs(a) <==> is_nan(a.re) && is_nan(a.im),
{
    relation_to_itself(a.re);
    relation_to_itself(a.im);
}

/// `==` and `!=` never hold together, but both fail for values that differ
/// in exactly one part.
pub proof fn ne_is_stricter_than_not_eq(a: Complex, b: Complex)
    ensures
        a.differs(b) ==> !a.equals(b),
        !a.equals(b) && !a.differs(b) <==> (a.re_relation(b).is_eq() != a.im_relation(b).is_eq()),
{
}

/// `==` and `!=` do not depend on the order of their operands.
pub proof fn equality_is_symmetric(a: Complex, b: Complex)
    ensures
        a.equals(b) <==> b.equals(a),
        a.differs(b) <==> b.differs(a),
{
    relation_reverses(a.re, b.re);
    relation_reverses(a.im, b.im);
}

/// `a < b` holds exactly when `b > a` does.
pub proof fn less_mirrors_greater(a: Complex, b: Complex)
    ensures
        a.less(b) <==> b.greater(a),
{
    relation_reverses(a.re, b.re);
    relation_reverses(a.im, b.im);
}

/// The display joins the parts with `+` unless the imaginary part is a
/// number below zero: a NaN, a zero of either sign and every number without
/// the sign bit get the `+`.
pub proof fn plus_unless_below_zero(a: Complex)
    ensures
        a.joins_with_plus() <==> is_nan(a.im) || !sign_bit(a.im) || magnitude(a.im) == 0,
{
    less_than_zero(a.im);
}

} // verus!
