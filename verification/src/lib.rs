//! Tagged, allocation-free encodings of numeric values packed into 64-bit
//! words, with the bit-level invariants proved.
//!
//! Three independent encodings are provided:
//!
//! - this root module: quiet-NaN boxing of a 51-bit value into the `u64`
//!   representation of an `f64`, recognised by the IEEE-754 NaN test;
//! - [`nan`]: quiet-NaN boxing of 50-bit unsigned and 51-bit sign-magnitude
//!   integers, recognised by a dedicated exponent pattern;
//! - [`f62`]: low-bit tag boxing of 63-bit integers, 62-bit payloads and
//!   rotated `f64` bit patterns, together with the [`f62::Float62`] union;
//! - [`n64`]: the [`n64::N64`] union built on [`nan`] plus an integer flag.
//!
//! Every function here works on plain machine words passed by value; callers
//! that hold an `f64` convert with `f64::to_bits` and `f64::from_bits` at the
//! boundary.

use vstd::prelude::*;

pub mod f62;
pub mod n64;
pub mod nan;

verus! {

/// Exponent and quiet bits of the canonical `f64` NaN (`f64::NAN.to_bits()`):
/// any word with all of these bits set is the bit pattern of a NaN.
pub const EXPONENT_MASK: u64 = 0x7ff8_0000_0000_0000;

/// The 51 low bits left free for a boxed value by `EXPONENT_MASK`.
pub const BOXED_VALUE_MASK: u64 = 0x0007_ffff_ffff_ffff;

/// Holds when a word is the bit pattern of an IEEE-754 NaN: exponent bits all
/// ones and a non-zero mantissa.
pub open spec fn spec_is_nan_bits(number: u64) -> bool {
    number & 0x7ff0_0000_0000_0000 == 0x7ff0_0000_0000_0000
        && number & 0x000f_ffff_ffff_ffff != 0
}

/// Returns `true` if a word is the bit pattern of an IEEE-754 NaN.
#[verifier::when_used_as_spec(spec_is_nan_bits)]
#[inline]
pub fn is_nan_bits(number: u64) -> (r: bool)
    ensures
        r == spec_is_nan_bits(number),
{
    number & 0x7ff0_0000_0000_0000 == 0x7ff0_0000_0000_0000
        && number & 0x000f_ffff_ffff_ffff != 0
}

/// The word produced by boxing `value` under the canonical NaN pattern.
pub open spec fn spec_box_u64(value: u64) -> u64 {
    EXPONENT_MASK | value
}

/// The value recovered from a word: the low 51 bits if the word is a NaN
/// pattern, absent otherwise.
pub open spec fn spec_unbox_u64(number: u64) -> Option<u64> {
    if spec_is_nan_bits(number) {
        Some(number & BOXED_VALUE_MASK)
    } else {
        None
    }
}

/// Round trip with truncation: unboxing a boxed value recovers exactly its
/// low 51 bits, and recovers the value itself whenever it is below `1 << 51`.
pub proof fn lemma_u64_round_trip(value: u64)
    ensures
        spec_unbox_u64(spec_box_u64(value)) == Some(value & BOXED_VALUE_MASK),
        value < 0x0008_0000_0000_0000 ==> spec_unbox_u64(spec_box_u64(value)) == Some(value),
{
    assert(spec_is_nan_bits(spec_box_u64(value))
        && spec_box_u64(value) & BOXED_VALUE_MASK == value & BOXED_VALUE_MASK
        && (value < 0x0008_0000_0000_0000 ==> value & BOXED_VALUE_MASK == value))
        by (bit_vector);
}

/// Boxes a value into the `u64` representation of an `f64`.
///
/// The `value` needs to be less than `1 << 51`. Otherwise, it is truncated.
#[inline]
pub fn box_u64(value: u64) -> (r: u64)
    ensures
        r == spec_box_u64(value),
        spec_unbox_u64(r) == Some(value & BOXED_VALUE_MASK),
        value < 0x0008_0000_0000_0000 ==> spec_unbox_u64(r) == Some(value),
{
    proof {
        lemma_u64_round_trip(value);
    }
    EXPONENT_MASK | value
}

/// Unboxes a value from the `u64` representation of an `f64`.
///
/// Any NaN pattern is treated as boxed, including NaNs not produced by
/// [`box_u64`]; an ordinary finite double or an infinity yields `None`.
#[inline]
pub fn unbox_u64(number: u64) -> (r: Option<u64>)
    ensures
        r == spec_unbox_u64(number),
{
    if is_nan_bits(number) {
        Some(number & BOXED_VALUE_MASK)
    } else {
        None
    }
}

} // verus!
