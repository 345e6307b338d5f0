//! Quiet-NaN boxing: the dedicated exponent-pattern family and the
//! canonical-NaN family at the crate root.

use nanbox::nan::{box_signed, box_unsigned, unbox_signed, unbox_unsigned};
use nanbox::{box_u64, unbox_u64};

const MAXIMUM: i64 = 1 << 50;

#[test]
fn f64_check_mask() {
    assert_ne!(nanbox::nan::EXPONENT_MASK, f64::NAN.to_bits());
    assert!(f64::from_bits(nanbox::nan::EXPONENT_MASK).is_nan());
}

#[test]
fn unbox_nan() {
    assert_eq!(unbox_signed(f64::NAN.to_bits()), None);
    assert_eq!(unbox_signed(f64::INFINITY.to_bits()), None);
    assert_eq!(unbox_signed(f64::NEG_INFINITY.to_bits()), None);
}

#[test]
fn f64_box_unsigned_value() {
    assert!(f64::from_bits(box_unsigned(0)).is_nan());
    assert!(f64::from_bits(box_unsigned(1)).is_nan());
    assert!(f64::from_bits(box_unsigned(7)).is_nan());
    assert!(f64::from_bits(box_unsigned(42)).is_nan());
}

#[test]
fn f64_unbox_unsigned_value() {
    assert_eq!(unbox_unsigned(box_unsigned(0)), Some(0));
    assert_eq!(unbox_unsigned(box_unsigned(1)), Some(1));
    assert_eq!(unbox_unsigned(box_unsigned(7)), Some(7));
    assert_eq!(unbox_unsigned(box_unsigned(42)), Some(42));
}

#[test]
fn unsigned_maximum() {
    let x = MAXIMUM as u64;

    assert_eq!(unbox_unsigned(box_unsigned(x - 1)), Some(x - 1));
    assert_eq!(unbox_unsigned(box_unsigned(x)), Some(0));
}

#[test]
fn f64_box_signed_value() {
    assert!(f64::from_bits(box_signed(0)).is_nan());
    assert!(f64::from_bits(box_signed(1)).is_nan());
    assert!(f64::from_bits(box_signed(7)).is_nan());
    assert!(f64::from_bits(box_signed(42)).is_nan());
    assert!(f64::from_bits(box_signed(-1)).is_nan());
    assert!(f64::from_bits(box_signed(-7)).is_nan());
    assert!(f64::from_bits(box_signed(-42)).is_nan());
}

#[test]
fn f64_unbox_signed_value() {
    assert_eq!(unbox_signed(box_signed(0)), Some(0));
    assert_eq!(unbox_signed(box_signed(1)), Some(1));
    assert_eq!(unbox_signed(box_signed(7)), Some(7));
    assert_eq!(unbox_signed(box_signed(42)), Some(42));
    assert_eq!(unbox_signed(box_signed(-1)), Some(-1));
    assert_eq!(unbox_signed(box_signed(-7)), Some(-7));
    assert_eq!(unbox_signed(box_signed(-42)), Some(-42));
}

#[test]
fn signed_maximum() {
    assert_eq!(unbox_signed(box_signed(MAXIMUM - 1)), Some(MAXIMUM - 1));
    assert_eq!(unbox_signed(box_signed(MAXIMUM)), Some(0));
}

#[test]
fn signed_minimum() {
    assert_eq!(unbox_signed(box_signed(1 - MAXIMUM)), Some(1 - MAXIMUM));
    assert_eq!(unbox_signed(box_signed(-MAXIMUM)), Some(0));
}

#[test]
fn f64_unbox_f64_value() {
    assert_eq!(unbox_unsigned(0.0f64.to_bits()), None);
    assert_eq!(unbox_unsigned((-1.0f64).to_bits()), None);
    assert_eq!(unbox_unsigned(1.0f64.to_bits()), None);
    assert_eq!(unbox_unsigned(42.0f64.to_bits()), None);
}

#[test]
fn u64_unbox_unsigned_value() {
    assert_eq!(unbox_unsigned(42.0f64.to_bits()), None);
    assert_eq!(unbox_unsigned(box_unsigned(0)), Some(0));
    assert_eq!(unbox_unsigned(box_unsigned(1)), Some(1));
    assert_eq!(unbox_unsigned(box_unsigned(7)), Some(7));
    assert_eq!(unbox_unsigned(box_unsigned(42)), Some(42));
}

#[test]
fn u64_unbox_signed_value() {
    assert_eq!(unbox_signed(42.0f64.to_bits()), None);
    assert_eq!(unbox_signed(box_signed(0)), Some(0));
    assert_eq!(unbox_signed(box_signed(1)), Some(1));
    assert_eq!(unbox_signed(box_signed(7)), Some(7));
    assert_eq!(unbox_signed(box_signed(42)), Some(42));
    assert_eq!(unbox_signed(box_signed(-1)), Some(-1));
    assert_eq!(unbox_signed(box_signed(-7)), Some(-7));
    assert_eq!(unbox_signed(box_signed(-42)), Some(-42));
}

#[test]
fn lib_check_mask() {
    assert_eq!(nanbox::EXPONENT_MASK, f64::NAN.to_bits());
}

#[test]
fn unbox_value_in_u64() {
    assert_eq!(unbox_u64(42.0f64.to_bits()), None);
    assert_eq!(unbox_u64(box_u64(0)), Some(0));
    assert_eq!(unbox_u64(box_u64(1)), Some(1));
    assert_eq!(unbox_u64(box_u64(7)), Some(7));
    assert_eq!(unbox_u64(box_u64(42)), Some(42));
}

#[test]
fn lib_box_makes_nan() {
    assert!(f64::from_bits(box_u64(0)).is_nan());
    assert!(f64::from_bits(box_u64(42)).is_nan());
}

#[test]
fn lib_unbox_foreign_nan() {
    // Any NaN pattern counts as boxed for the canonical-NaN family, the
    // canonical NaN itself carrying the value zero.
    assert_eq!(unbox_u64(f64::NAN.to_bits()), Some(0));
    assert_eq!(unbox_u64(f64::INFINITY.to_bits()), None);
    assert_eq!(unbox_u64(f64::NEG_INFINITY.to_bits()), None);
}

#[test]
fn lib_unsigned_maximum() {
    let x = 1u64 << 51;

    assert_eq!(unbox_u64(box_u64(x - 1)), Some(x - 1));
    assert_eq!(unbox_u64(box_u64(x)), Some(0));
}

#[test]
fn non_aliasing() {
    // No ordinary double ever unboxes, in either decoder.
    for number in [0.0f64, -1.0, 1.0, 42.0] {
        assert_eq!(unbox_unsigned(number.to_bits()), None);
        assert_eq!(unbox_signed(number.to_bits()), None);
    }
}

#[test]
fn boxed_class_is_nan() {
    // No finite double or infinity ever aliases a boxed word.
    for value in [0u64, 1, 42, (1 << 50) - 1] {
        assert!(f64::from_bits(box_unsigned(value)).is_nan());
        assert!(f64::from_bits(box_signed(-(value as i64))).is_nan());
    }
}
