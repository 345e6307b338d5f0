//! Quiet-NaN boxing of unsigned and sign-magnitude integers into the `u64`
//! representation of an `f64`.
//!
//! A boxed word carries the exponent pattern [`EXPONENT_MASK`], which lies
//! strictly inside the IEEE-754 NaN space, so no finite double or infinity
//! ever aliases a boxed value. The 50 low bits hold an unsigned magnitude and
//! the top bit holds a sign, giving 50-bit unsigned and 51-bit sign-magnitude
//! signed encodings.

use vstd::prelude::*;

verus! {

/// Exponent pattern marking a boxed word: the NaN exponent, the quiet bit and
/// one further mantissa bit, so that it differs from the canonical NaN.
pub const EXPONENT_MASK: u64 = 0x7ffc_0000_0000_0000;

/// The 50 low bits that carry a boxed magnitude.
pub const PAYLOAD_MASK: u64 = 0x0003_ffff_ffff_ffff;

/// The IEEE-754 sign bit, which carries the sign of a boxed signed integer.
pub const SIGN_MASK: u64 = 0x8000_0000_0000_0000;

/// Holds when a word belongs to the boxed class: all bits of
/// [`EXPONENT_MASK`] set.
pub open spec fn spec_is_boxed(number: u64) -> bool {
    number & EXPONENT_MASK == EXPONENT_MASK
}

/// Returns `true` if a word belongs to the boxed class.
#[verifier::when_used_as_spec(spec_is_boxed)]
#[inline]
pub fn is_boxed(number: u64) -> (r: bool)
    ensures
        r == spec_is_boxed(number),
{
    number & EXPONENT_MASK == EXPONENT_MASK
}

/// The word produced by boxing an unsigned `value`.
pub open spec fn spec_box_unsigned(value: u64) -> u64 {
    EXPONENT_MASK | value
}

/// The unsigned value recovered from a word: its low 50 bits if the word is
/// boxed, absent otherwise.
pub open spec fn spec_unbox_unsigned(number: u64) -> Option<u64> {
    if spec_is_boxed(number) {
        Some(number & PAYLOAD_MASK)
    } else {
        None
    }
}

/// The magnitude of a signed value, as a word; `i64::MIN` maps to `1 << 63`.
pub open spec fn spec_unsigned_abs(value: i64) -> u64 {
    if value >= 0 {
        value as u64
    } else {
        (0 - value as int) as u64
    }
}

/// The word produced by boxing a signed `value`: sign bit plus boxed
/// magnitude.
pub open spec fn spec_box_signed(value: i64) -> u64 {
    (if value < 0 {
        SIGN_MASK
    } else {
        0u64
    }) | spec_box_unsigned(spec_unsigned_abs(value))
}

/// The signed value carried by a boxed word: its low 50 bits, negated when
/// the sign bit is set.
pub open spec fn spec_signed_value(number: u64) -> int {
    if number & SIGN_MASK == 0 {
        (number & PAYLOAD_MASK) as int
    } else {
        0 - (number & PAYLOAD_MASK) as int
    }
}

/// The signed value recovered from a word, absent when the word is not boxed.
pub open spec fn spec_unbox_signed(number: u64) -> Option<i64> {
    if spec_is_boxed(number) {
        Some(spec_signed_value(number) as i64)
    } else {
        None
    }
}

/// What boxing a signed value and unboxing it again yields: the magnitude is
/// truncated to 50 bits and the sign is kept, so `-(1 << 50)` comes back as
/// zero.
pub open spec fn spec_signed_truncated(value: i64) -> int {
    if value >= 0 {
        (value as int) % 0x0004_0000_0000_0000
    } else {
        0 - ((0 - value as int) % 0x0004_0000_0000_0000)
    }
}

/// Boxing keeps exactly the low 50 bits of an unsigned value: every boxed
/// word is in the boxed class, and unboxing recovers the value modulo
/// `1 << 50`.
pub proof fn lemma_unsigned_truncation(value: u64)
    ensures
        spec_is_boxed(spec_box_unsigned(value)),
        spec_box_unsigned(value) & PAYLOAD_MASK == value & PAYLOAD_MASK,
        value <= PAYLOAD_MASK ==> value & PAYLOAD_MASK == value,
{
    assert(spec_is_boxed(spec_box_unsigned(value))
        && spec_box_unsigned(value) & PAYLOAD_MASK == value & PAYLOAD_MASK
        && (value <= PAYLOAD_MASK ==> value & PAYLOAD_MASK == value))
        by (bit_vector);
}

/// Round trip: every unsigned value below `1 << 50` is recovered exactly.
pub proof fn lemma_unsigned_round_trip(value: u64)
    requires
        value < 0x0004_0000_0000_0000,
    ensures
        spec_unbox_unsigned(spec_box_unsigned(value)) == Some(value),
{
    lemma_unsigned_truncation(value);
}

/// Boxing a signed value always lands in the boxed class, and the value read
/// back is the sign-magnitude truncation of the input.
pub proof fn lemma_signed_boxing(value: i64)
    ensures
        spec_is_boxed(spec_box_signed(value)),
        spec_signed_value(spec_box_signed(value)) == spec_signed_truncated(value),
        -0x0004_0000_0000_0000 < value < 0x0004_0000_0000_0000 ==> spec_signed_truncated(
            value,
        ) == value,
{
    assert(spec_is_boxed(spec_box_signed(value))
        && spec_signed_value(spec_box_signed(value)) == spec_signed_truncated(value)
        && (-0x0004_0000_0000_0000 < value < 0x0004_0000_0000_0000 ==> spec_signed_truncated(
            value,
        ) == value)) by (bit_vector);
}

/// Round trip: every signed value of magnitude below `1 << 50` is recovered
/// exactly.
pub proof fn lemma_signed_round_trip(value: i64)
    requires
        -0x0004_0000_0000_0000 < value < 0x0004_0000_0000_0000,
    ensures
        spec_unbox_signed(spec_box_signed(value)) == Some(value),
{
    lemma_signed_boxing(value);
}

/// Every boxed word is an IEEE-754 NaN bit pattern, so the boxed class never
/// overlaps a finite double, an infinity, or zero.
pub proof fn lemma_boxed_is_nan(number: u64)
    ensures
        spec_is_boxed(number) ==> crate::spec_is_nan_bits(number),
{
    assert(spec_is_boxed(number) ==> crate::spec_is_nan_bits(number)) by (bit_vector);
}

/// Boxes a 50-bit unsigned integer.
///
/// A `value` of `1 << 50` or more keeps only its low 50 bits on unboxing;
/// this silent truncation is the documented policy, not an error.
#[inline]
pub fn box_unsigned(value: u64) -> (r: u64)
    ensures
        r == spec_box_unsigned(value),
        spec_unbox_unsigned(r) == Some(value & PAYLOAD_MASK),
        value < 0x0004_0000_0000_0000 ==> spec_unbox_unsigned(r) == Some(value),
{
    proof {
        lemma_unsigned_truncation(value);
    }
    EXPONENT_MASK | value
}

/// Unboxes a 50-bit unsigned integer, yielding `None` for every word outside
/// the boxed class.
#[inline]
pub fn unbox_unsigned(number: u64) -> (r: Option<u64>)
    ensures
        r == spec_unbox_unsigned(number),
        r matches Some(value) ==> value <= PAYLOAD_MASK,
{
    if number & EXPONENT_MASK == EXPONENT_MASK {
        proof {
            assert(number & PAYLOAD_MASK <= PAYLOAD_MASK) by (bit_vector);
        }
        Some(number & PAYLOAD_MASK)
    } else {
        None
    }
}

/// Boxes a 51-bit signed integer as a sign bit plus a 50-bit magnitude.
///
/// A magnitude of `1 << 50` or more is truncated on unboxing; `0` and `-0`
/// box to words that decode alike.
#[inline]
pub fn box_signed(value: i64) -> (r: u64)
    ensures
        r == spec_box_signed(value),
        spec_unbox_signed(r) == Some(spec_signed_truncated(value) as i64),
        -0x0004_0000_0000_0000 < value < 0x0004_0000_0000_0000 ==> spec_unbox_signed(r) == Some(
            value,
        ),
{
    let magnitude: u64 = if value >= 0 {
        value as u64
    } else if value == i64::MIN {
        0x8000_0000_0000_0000
    } else {
        (-value) as u64
    };
    proof {
        lemma_signed_boxing(value);
    }
    (if value < 0 {
        SIGN_MASK
    } else {
        0u64
    }) | (EXPONENT_MASK | magnitude)
}

/// Unboxes a 51-bit signed integer, yielding `None` for every word outside
/// the boxed class; sign and magnitude are decoded independently.
#[inline]
pub fn unbox_signed(number: u64) -> (r: Option<i64>)
    ensures
        r == spec_unbox_signed(number),
        r matches Some(value) ==> -0x0004_0000_0000_0000 < value < 0x0004_0000_0000_0000,
{
    match unbox_unsigned(number) {
        Some(value) => {
            if number & SIGN_MASK == 0 {
                Some(value as i64)
            } else {
                Some(-(value as i64))
            }
        },
        None => None,
    }
}

} // verus!
