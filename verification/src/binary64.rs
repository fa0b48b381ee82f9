//! IEEE-754 double-precision numbers, held as their 64-bit encodings.
//!
//! Bit 63 is the sign, bits 62..52 the biased exponent, bits 51..0 the
//! fraction. An encoding whose exponent is all ones and whose fraction is not
//! zero is a NaN; every other encoding is a number (finite or infinite).

use vstd::prelude::*;

verus! {

/// The sign bit of an encoding.
pub const SIGN_MASK: u64 = 0x8000_0000_0000_0000;

/// Every bit of an encoding but the sign.
pub const MAGNITUDE_MASK: u64 = 0x7fff_ffff_ffff_ffff;

/// The magnitude of an infinity: exponent all ones, fraction zero.
pub const INFINITY_MAGNITUDE: u64 = 0x7ff0_0000_0000_0000;

/// The encoding of positive zero.
pub const POSITIVE_ZERO: u64 = 0;

/// Exponent and fraction of an encoding, read as one unsigned integer.
pub open spec fn magnitude(bits: u64) -> u64 {
    bits & MAGNITUDE_MASK
}

/// Whether the sign bit of an encoding is set.
pub open spec fn sign_bit(bits: u64) -> bool {
    bits & SIGN_MASK != 0
}

/// Whether an encoding is a NaN.
pub open spec fn is_nan(bits: u64) -> bool {
    magnitude(bits) > INFINITY_MAGNITUDE
}

/// The place of a number on the line of all numbers: numbers are ordered as
/// their ranks are, and both zeros share rank 0. Meaningless for a NaN.
pub open spec fn rank(bits: u64) -> int {
    if sign_bit(bits) {
        -(magnitude(bits) as int)
    } else {
        magnitude(bits) as int
    }
}

/// How one double-precision value stands to another.
#[derive(Clone, Copy, Debug, PartialEq, Eq, Structural)]
pub enum Relation {
    Less,
    Equal,
    Greater,
    /// At least one of the two is a NaN.
    Unordered,
}

impl Relation {
    /// What `<` gives for two values that stand in this relation.
    pub open spec fn is_lt(self) -> bool {
        self == Relation::Less
    }

    /// What `<=` gives: false when either value is a NaN.
    pub open spec fn is_le(self) -> bool {
        self == Relation::Less || self == Relation::Equal
    }

    /// What `>` gives.
    pub open spec fn is_gt(self) -> bool {
        self == Relation::Greater
    }

    /// What `>=` gives: false when either value is a NaN.
    pub open spec fn is_ge(self) -> bool {
        self == Relation::Greater || self == Relation::Equal
    }

    /// What `==` gives: a NaN equals nothing, itself included.
    pub open spec fn is_eq(self) -> bool {
        self == Relation::Equal
    }

    /// What `!=` gives: true whenever either value is a NaN.
    pub open spec fn is_ne(self) -> bool {
        self != Relation::Equal
    }

    /// The relation of `b` to `a`, where this is the relation of `a` to `b`.
    pub open spec fn reversed(self) -> Relation {
        match self {
            Relation::Less => Relation::Greater,
            Relation::Greater => Relation::Less,
            Relation::Equal => Relation::Equal,
            Relation::Unordered => Relation::Unordered,
        }
    }
}

/// The relation of `a` to `b` under IEEE-754 comparison.
pub open spec fn relation(a: u64, b: u64) -> Relation {
    if is_nan(a) || is_nan(b) {
        Relation::Unordered
    } else if rank(a) < rank(b) {
        Relation::Less
    } else if rank(a) > rank(b) {
        Relation::Greater
    } else {
        Relation::Equal
    }
}

/// Compares two encodings as IEEE-754 compares the values they encode.
pub fn compare(a: u64, b: u64) -> (r: Relation)
    ensures
        r == relation(a, b),
{
    let ma: u64 = a & MAGNITUDE_MASK;
    let mb: u64 = b & MAGNITUDE_MASK;
    if ma > INFINITY_MAGNITUDE || mb > INFINITY_MAGNITUDE {
        return Relation::Unordered;
    }
    let na: bool = a & SIGN_MASK != 0;
    let nb: bool = b & SIGN_MASK != 0;
    if na == nb {
        if ma == mb {
            Relation::Equal
        } else if (ma < mb) != na {
            Relation::Less
        } else {
            Relation::Greater
        }
    } else if ma == 0 && mb == 0 {
        Relation::Equal
    } else if na {
        Relation::Less
    } else {
        Relation::Greater
    }
}

/// Swapping the two values reverses their relation.
pub proof fn relation_reverses(a: u64, b: u64)
    ensures
        relation(b, a) == relation(a, b).reversed(),
{
}

/// A number is equal to itself; a NaN is not even that.
pub proof fn relation_to_itself(a: u64)
    ensures
        relation(a, a) == (if is_nan(a) {
            Relation::Unordered
        } else {
            Relation::Equal
        }),
{
}

/// Among numbers, `Less` and `Equal` are transitive.
pub proof fn relation_is_transitive(a: u64, b: u64, c: u64)
    ensures
        relation(a, b).is_le() && relation(b, c).is_le() ==> relation(a, c).is_le(),
        relation(a, b).is_lt() && relation(b, c).is_le() ==> relation(a, c).is_lt(),
        relation(a, b).is_le() && relation(b, c).is_lt() ==> relation(a, c).is_lt(),
{
}

/// Zeros are equal whatever their signs, and only zeros are equal to a zero.
pub proof fn zeros_are_equal(a: u64, b: u64)
    requires
        magnitude(a) == 0,
    ensures
        relation(a, b) == Relation::Equal <==> magnitude(b) == 0,
{
}

/// A value is less than zero exactly when it is a number with the sign bit
/// set and is not a zero.
pub proof fn less_than_zero(x: u64)
    ensures
        relation(x, POSITIVE_ZERO).is_lt() <==> !is_nan(x) && sign_bit(x) && magnitude(x) != 0,
{
    assert(0u64 & 0x7fff_ffff_ffff_ffffu64 == 0) by (bit_vector);
    assert(0u64 & 0x8000_0000_0000_0000u64 == 0) by (bit_vector);
}

} // verus!
