//! The complex value type, its equality, its ordering and its display.
//!
//! The comparison operators of this type are deliberately not the usual ones:
//! `!=` is not the negation of `==`, and `<=` and `>=` are not `<` or `==` and
//! `>` or `==`. Each operator's contract states exactly what it computes.

use crate::binary64::{compare, relation, Relation, POSITIVE_ZERO};
use std::cmp::Ordering;
use vstd::prelude::*;
use vstd::std_specs::cmp::{PartialEqSpecImpl, PartialOrdSpecImpl};
use vstd::string::StringExecFns;

verus! {

/// A complex number `re + im·i`. Each part is the 64-bit encoding of an
/// IEEE-754 double-precision value; any encoding is allowed, NaN and the
/// infinities included.
#[derive(Clone, Copy, Debug)]
pub struct Complex {
    pub re: u64,
    pub im: u64,
}

/// The outcome of a comparison, from how the real parts and the imaginary
/// parts of the two values stand to each other. The first rule that applies
/// decides:
///
/// 1. both parts less: `Less`;
/// 2. both parts greater: `Greater`;
/// 3. both parts less or equal: no outcome;
/// 4. both parts greater or equal: `Equal`;
/// 5. anything else (the parts disagree, or a NaN is involved): no outcome.
pub open spec fn outcome(re: Relation, im: Relation) -> Option<Ordering> {
    if re.is_lt() && im.is_lt() {
        Some(Ordering::Less)
    } else if re.is_gt() && im.is_gt() {
        Some(Ordering::Greater)
    } else if re.is_le() && im.is_le() {
        None
    } else if re.is_ge() && im.is_ge() {
        Some(Ordering::Equal)
    } else {
        None
    }
}

/// The text of the expression `re + im·i` inside the brackets of a display
/// line: the two parts' texts, joined by `+` where `plus` is set and by
/// nothing where it is not, followed by `i`.
pub open spec fn expression(re: Seq<char>, im: Seq<char>, plus: bool) -> Seq<char> {
    re + (if plus {
        "+"@
    } else {
        Seq::empty()
    }) + im + "i"@
}

/// The three display lines of a value, given the text of each part.
pub open spec fn display(re: Seq<char>, im: Seq<char>, plus: bool) -> Seq<char> {
    let e = expression(re, im, plus);
    "Complex("@ + e + ")\n     Re("@ + e + ") = "@ + re + "\n     Im("@ + e + ") = "@ + im
}

impl Complex {
    /// A value with the given parts. Every pair of encodings is a value, so
    /// this cannot fail.
    pub fn new(re: u64, im: u64) -> (c: Complex)
        ensures
            c.re == re,
            c.im == im,
    {
        Complex { re, im }
    }

    /// How the real part stands to the real part of `other`.
    pub open spec fn re_relation(self, other: Complex) -> Relation {
        relation(self.re, other.re)
    }

    /// How the imaginary part stands to the imaginary part of `other`.
    pub open spec fn im_relation(self, other: Complex) -> Relation {
        relation(self.im, other.im)
    }

    /// What `==` computes: both parts are equal.
    pub open spec fn equals(self, other: Complex) -> bool {
        self.re_relation(other).is_eq() && self.im_relation(other).is_eq()
    }

    /// What `!=` computes: both parts differ.
    pub open spec fn differs(self, other: Complex) -> bool {
        self.re_relation(other).is_ne() && self.im_relation(other).is_ne()
    }

    /// What `partial_cmp` computes.
    pub open spec fn ordering(self, other: Complex) -> Option<Ordering> {
        outcome(self.re_relation(other), self.im_relation(other))
    }

    /// What `<` computes: both parts are less.
    pub open spec fn less(self, other: Complex) -> bool {
        self.re_relation(other).is_lt() && self.im_relation(other).is_lt()
    }

    /// What `>` computes: both parts are greater.
    pub open spec fn greater(self, other: Complex) -> bool {
        self.re_relation(other).is_gt() && self.im_relation(other).is_gt()
    }

    /// What `>=` computes: one part is greater and the other is equal.
    pub open spec fn greater_or_equal(self, other: Complex) -> bool {
        let re = self.re_relation(other);
        let im = self.im_relation(other);
        (re.is_gt() && im.is_eq()) || (re.is_eq() && im.is_gt())
    }

    /// What `<=` computes: none of `<`, `>` and `>=` holds.
    pub open spec fn less_or_equal(self, other: Complex) -> bool {
        !self.less(other) && !self.greater(other) && !self.greater_or_equal(other)
    }

    /// Whether the display joins the parts with an explicit `+`: always,
    /// unless the imaginary part is less than zero. Negative zero and NaN are
    /// not less than zero.
    pub open spec fn joins_with_plus(self) -> bool {
        !relation(self.im, POSITIVE_ZERO).is_lt()
    }

    /// The display of the value, three lines without a final line break:
    ///
    /// ```text
    /// Complex(3-4i)
    ///      Re(3-4i) = 3
    ///      Im(3-4i) = -4
    /// ```
    ///
    /// `re` and `im` are the decimal texts of the two parts, which the caller
    /// supplies. Where the imaginary part is less than zero its own sign
    /// separates the parts; otherwise a `+` does, on all three lines.
    pub fn to_text(&self, re: &str, im: &str) -> (text: String)
        ensures
            text@ == display(re@, im@, self.joins_with_plus()),
    {
        let plus: bool = compare(self.im, POSITIVE_ZERO) != Relation::Less;
        let mut e: String = String::from_str(re);
        if plus {
            e.append("+");
        }
        e.append(im);
        e.append("i");
        let mut text: String = String::from_str("Complex(");
        text.append(e.as_str());
        text.append(")\n     Re(");
        text.append(e.as_str());
        text.append(") = ");
        text.append(re);
        text.append("\n     Im(");
        text.append(e.as_str());
        text.append(") = ");
        text.append(im);
        text
    }
}

impl PartialEqSpecImpl for Complex {
    /// `!=` is not the negation of `==`, so the usual laws do not hold.
    open spec fn obeys_eq_spec() -> bool {
        false
    }

    open spec fn eq_spec(&self, other: &Complex) -> bool {
        self.equals(*other)
    }
}

impl PartialEq for Complex {
    /// True exactly when the real parts are equal and the imaginary parts are
    /// equal, as IEEE-754 compares them: a value with a NaN part equals
    /// nothing, and the two zeros are equal.
    fn eq(&self, other: &Complex) -> (r: bool)
        ensures
            r == self.equals(*other),
    {
        compare(self.re, other.re) == Relation::Equal && compare(self.im, other.im)
            == Relation::Equal
    }

    /// True exactly when the real parts differ and the imaginary parts differ.
    /// Two values that differ in one part only are neither `==` nor `!=`.
    fn ne(&self, other: &Complex) -> (r: bool)
        ensures
            r == self.differs(*other),
    {
        compare(self.re, other.re) != Relation::Equal && compare(self.im, other.im)
            != Relation::Equal
    }
}

impl PartialOrdSpecImpl for Complex {
    /// `<=` and `>=` do not follow from `partial_cmp` in the usual way.
    open spec fn obeys_partial_cmp_spec() -> bool {
        false
    }

    open spec fn partial_cmp_spec(&self, other: &Complex) -> Option<Ordering> {
        self.ordering(*other)
    }
}

impl PartialOrd for Complex {
    /// Compares by dominance in both parts; see [`outcome`] for the rules.
    fn partial_cmp(&self, other: &Complex) -> (r: Option<Ordering>)
        ensures
            r == self.ordering(*other),
    {
        let re: Relation = compare(self.re, other.re);
        let im: Relation = compare(self.im, other.im);
        match (re, im) {
            (Relation::Less, Relation::Less) => Some(Ordering::Less),
            (Relation::Greater, Relation::Greater) => Some(Ordering::Greater),
            (Relation::Greater, Relation::Equal) => Some(Ordering::Equal),
            (Relation::Equal, Relation::Greater) => Some(Ordering::Equal),
            _ => None,
        }
    }

    /// True exactly when `partial_cmp` gives `Less`.
    fn lt(&self, other: &Complex) -> (r: bool)
        ensures
            r == (self.ordering(*other) == Some(Ordering::Less)),
            r == self.less(*other),
    {
        match self.partial_cmp(other) {
            Some(Ordering::Less) => true,
            _ => false,
        }
    }

    /// True exactly when `partial_cmp` gives no outcome; not when it gives
    /// `Less` or `Equal`.
    fn le(&self, other: &Complex) -> (r: bool)
        ensures
            r == (self.ordering(*other) is None),
            r == self.less_or_equal(*other),
    {
        match self.partial_cmp(other) {
            None => true,
            _ => false,
        }
    }

    /// True exactly when `partial_cmp` gives `Greater`.
    fn gt(&self, other: &Complex) -> (r: bool)
        ensures
            r == (self.ordering(*other) == Some(Ordering::Greater)),
            r == self.greater(*other),
    {
        match self.partial_cmp(other) {
            Some(Ordering::Greater) => true,
            _ => false,
        }
    }

    /// True exactly when `partial_cmp` gives `Equal`; not when it gives
    /// `Greater`.
    fn ge(&self, other: &Complex) -> (r: bool)
        ensures
            r == (self.ordering(*other) == Some(Ordering::Equal)),
            r == self.greater_or_equal(*other),
    {
        match self.partial_cmp(other) {
            Some(Ordering::Equal) => true,
            _ => false,
        }
    }
}

} // verus!
