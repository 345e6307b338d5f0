//! The `N64` composite number.

use nanbox::n64::N64;

#[test]
fn float_passthrough() {
    let number = N64::from_bits(42.0f64.to_bits());

    assert!(!number.is_boxed());
    assert_eq!(number.to_float_bits(), Some(42.0f64.to_bits()));
    assert_eq!(number.to_payload(), None);
    assert_eq!(number.to_signed_integer(), None);
}

#[test]
fn n64_payload() {
    assert!(N64::from_payload(42).is_boxed());
    assert_eq!(N64::from_payload(42).to_payload(), Some(42));
    assert_eq!(N64::from_payload(42).to_signed_integer(), None);
}

#[test]
fn signed_integer() {
    assert!(N64::from_signed_integer(42).is_boxed());
    assert!(N64::from_signed_integer(-42).is_boxed());
    assert_eq!(N64::from_signed_integer(42).to_signed_integer(), Some(42));
    assert_eq!(N64::from_signed_integer(-42).to_signed_integer(), Some(-42));
    assert_eq!(N64::from_signed_integer(42).to_payload(), None);
    assert_eq!(N64::from_signed_integer(-42).to_payload(), None);
}

#[test]
fn is_number_flag() {
    assert!(N64::from_payload(42).is_number());
    assert!(!N64::from_signed_integer(42).is_number());
    assert!(!N64::from_bits(42.0f64.to_bits()).is_number());
}

#[test]
fn boxed_never_a_float() {
    assert_eq!(N64::from_payload(42).to_float_bits(), None);
    assert_eq!(N64::from_signed_integer(-42).to_float_bits(), None);
}

#[test]
fn n64_payload_maximum() {
    let x = (1u64 << 49) - 1;

    assert_eq!(N64::from_payload(x).to_payload(), Some(x));
    // One bit more spills into the integer flag and leaves the payload
    // branch.
    assert_eq!(N64::from_payload(1u64 << 49).to_payload(), None);
    assert_eq!(N64::from_payload(1u64 << 49).to_signed_integer(), Some(0));
}

#[test]
fn n64_integer_maximum() {
    let x = (1i64 << 49) - 1;

    assert_eq!(N64::from_signed_integer(x).to_signed_integer(), Some(x));
    assert_eq!(N64::from_signed_integer(-x).to_signed_integer(), Some(-x));
    assert_eq!(N64::from_signed_integer(1i64 << 49).to_signed_integer(), Some(0));
}

#[test]
fn add() {
    assert_eq!(
        N64::from_signed_integer(2).boxed_add(N64::from_signed_integer(3)),
        Some(N64::from_signed_integer(5))
    );

    // Two float words refuse the boxed path; adding their doubles outside
    // and re-wrapping gives the expected word.
    let x = N64::from_bits(2.0f64.to_bits());
    let y = N64::from_bits(3.0f64.to_bits());
    assert_eq!(x.boxed_add(y), None);
    let sum = f64::from_bits(x.to_bits()) + f64::from_bits(y.to_bits());
    assert_eq!(N64::from_bits(sum.to_bits()), N64::from_bits(5.0f64.to_bits()));
}

#[test]
fn add_payload_counts_as_zero() {
    assert_eq!(
        N64::from_payload(42).boxed_add(N64::from_signed_integer(3)),
        Some(N64::from_signed_integer(3))
    );
    assert_eq!(
        N64::from_payload(1).boxed_add(N64::from_payload(2)),
        Some(N64::from_signed_integer(0))
    );
}
