use complex::binary64::{compare, INFINITY_MAGNITUDE, MAGNITUDE_MASK, POSITIVE_ZERO, SIGN_MASK};
use complex::Relation;
use std::cmp::Ordering;

/// Numbers and NaNs from every corner of the encoding.
fn samples() -> Vec<f64> {
    vec![
        0.0,
        -0.0,
        f64::from_bits(1),
        -f64::from_bits(1),
        f64::from_bits(0x000f_ffff_ffff_ffff),
        f64::MIN_POSITIVE,
        -f64::MIN_POSITIVE,
        0.1,
        0.5,
        1.0,
        -1.0,
        1.0 + f64::EPSILON,
        2.0,
        3.0,
        -4.0,
        5.0,
        1e300,
        -1e300,
        f64::MAX,
        f64::MIN,
        f64::INFINITY,
        f64::NEG_INFINITY,
        f64::NAN,
        -f64::NAN,
        f64::from_bits(0x7ff0_0000_0000_0001),
        f64::from_bits(0xfff0_0000_0000_0001),
        f64::from_bits(0x7fff_ffff_ffff_ffff),
        f64::from_bits(0xffff_ffff_ffff_ffff),
    ]
}

fn expected(a: f64, b: f64) -> Relation {
    match a.partial_cmp(&b) {
        Some(Ordering::Less) => Relation::Less,
        Some(Ordering::Equal) => Relation::Equal,
        Some(Ordering::Greater) => Relation::Greater,
        None => Relation::Unordered,
    }
}

#[test]
fn compare_agrees_with_float_comparison() {
    for a in samples() {
        for b in samples() {
            assert_eq!(
                compare(a.to_bits(), b.to_bits()),
                expected(a, b),
                "{:?} against {:?}",
                a,
                b
            );
        }
    }
}

#[test]
fn compare_agrees_with_float_operators() {
    for a in samples() {
        for b in samples() {
            let r: Relation = compare(a.to_bits(), b.to_bits());
            assert_eq!(r == Relation::Less, a < b);
            assert_eq!(r == Relation::Less || r == Relation::Equal, a <= b);
            assert_eq!(r == Relation::Greater, a > b);
            assert_eq!(r == Relation::Greater || r == Relation::Equal, a >= b);
            assert_eq!(r == Relation::Equal, a == b);
            assert_eq!(r != Relation::Equal, a != b);
        }
    }
}

#[test]
fn compare_walks_neighbouring_encodings_in_order() {
    let starts: Vec<u64> = vec![
        0,
        0x000f_ffff_ffff_fff0,
        0x3ff0_0000_0000_0000,
        0x7fef_ffff_ffff_fff0,
    ];
    for start in starts {
        for step in 0u64..15 {
            let low: u64 = start + step;
            let high: u64 = low + 1;
            assert_eq!(compare(low, high), Relation::Less);
            assert_eq!(compare(high, low), Relation::Greater);
            assert_eq!(compare(low | SIGN_MASK, high | SIGN_MASK), Relation::Greater);
            assert_eq!(compare(high | SIGN_MASK, low | SIGN_MASK), Relation::Less);
        }
    }
}

#[test]
fn compare_gives_exact_relations() {
    assert_eq!(compare(1.0f64.to_bits(), 2.0f64.to_bits()), Relation::Less);
    assert_eq!(compare(2.0f64.to_bits(), 1.0f64.to_bits()), Relation::Greater);
    assert_eq!(compare(2.0f64.to_bits(), 2.0f64.to_bits()), Relation::Equal);
    assert_eq!(compare((-2.0f64).to_bits(), (-1.0f64).to_bits()), Relation::Less);
    assert_eq!(compare((-1.0f64).to_bits(), 1.0f64.to_bits()), Relation::Less);
    assert_eq!(compare(f64::NAN.to_bits(), 1.0f64.to_bits()), Relation::Unordered);
    assert_eq!(compare(1.0f64.to_bits(), f64::NAN.to_bits()), Relation::Unordered);
}

#[test]
fn zeros_compare_equal() {
    let negative_zero: u64 = (-0.0f64).to_bits();
    assert_eq!(POSITIVE_ZERO, 0.0f64.to_bits());
    assert_eq!(negative_zero, SIGN_MASK);
    assert_ne!(POSITIVE_ZERO, negative_zero);
    assert_eq!(compare(POSITIVE_ZERO, negative_zero), Relation::Equal);
    assert_eq!(compare(negative_zero, POSITIVE_ZERO), Relation::Equal);
    assert_eq!(compare(negative_zero, negative_zero), Relation::Equal);
    assert_eq!(compare(negative_zero, 1), Relation::Less);
    assert_eq!(compare(negative_zero, SIGN_MASK | 1), Relation::Greater);
}

#[test]
fn nan_is_unordered_even_to_itself() {
    let nan: u64 = f64::NAN.to_bits();
    assert_eq!(compare(nan, nan), Relation::Unordered);
    for a in samples() {
        assert_eq!(compare(nan, a.to_bits()), Relation::Unordered);
        assert_eq!(compare(a.to_bits(), nan), Relation::Unordered);
    }
}

#[test]
fn infinities_bound_every_number() {
    let top: u64 = f64::INFINITY.to_bits();
    let bottom: u64 = f64::NEG_INFINITY.to_bits();
    assert_eq!(top, INFINITY_MAGNITUDE);
    assert_eq!(bottom, INFINITY_MAGNITUDE | SIGN_MASK);
    assert_eq!(compare(top, top), Relation::Equal);
    assert_eq!(compare(bottom, bottom), Relation::Equal);
    for a in samples() {
        if a.is_finite() {
            assert_eq!(compare(a.to_bits(), top), Relation::Less);
            assert_eq!(compare(bottom, a.to_bits()), Relation::Less);
        }
    }
}

#[test]
fn masks_split_an_encoding() {
    assert_eq!(SIGN_MASK | MAGNITUDE_MASK, u64::MAX);
    assert_eq!(SIGN_MASK & MAGNITUDE_MASK, 0);
    assert_eq!((-4.0f64).to_bits() & MAGNITUDE_MASK, 4.0f64.to_bits());
    assert_eq!((-4.0f64).to_bits() & SIGN_MASK, SIGN_MASK);
    for a in samples() {
        assert_eq!(a.is_nan(), a.to_bits() & MAGNITUDE_MASK > INFINITY_MAGNITUDE);
        assert_eq!(a.is_sign_negative(), a.to_bits() & SIGN_MASK != 0);
    }
}

#[test]
fn compare_reverses_with_its_operands() {
    for a in samples() {
        for b in samples() {
            let forward: Relation = compare(a.to_bits(), b.to_bits());
            let backward: Relation = compare(b.to_bits(), a.to_bits());
            let mirrored: Relation = match forward {
                Relation::Less => Relation::Greater,
                Relation::Greater => Relation::Less,
                Relation::Equal => Relation::Equal,
                Relation::Unordered => Relation::Unordered,
            };
            assert_eq!(backward, mirrored);
        }
    }
}
