//! Low-bit tag boxing for 62-bit floating-point numbers encompassing 63-bit
//! integers and 62-bit payloads.
//!
//! The two least-significant bits of a word discriminate three branches:
//!
//! - `0` in the low bit: a 63-bit signed integer, stored left-shifted by 1;
//! - `01`: an opaque 62-bit payload, stored left-shifted by 2;
//! - `11`: an `f64` bit pattern, stored left-rotated by [`ROTATION_COUNT`]
//!   with the two rotated-out exponent bits replaced by the tag — except the
//!   bit patterns of `0.0` and `-0.0`, which pass through untagged, so zero
//!   is deliberately never recognised as the float branch.

use vstd::prelude::*;
use vstd::wrapping::i64_specs;

verus! {

/// How far an `f64` bit pattern is rotated left before tagging.
pub const ROTATION_COUNT: u64 = 3;

/// All bits of a word except the IEEE-754 sign bit.
pub const MAGNITUDE_MASK: u64 = 0x7fff_ffff_ffff_ffff;

/// Holds when a word carries the integer tag (low bit clear).
pub open spec fn spec_is_integer(number: u64) -> bool {
    number & 1 == 0
}

/// Holds when a word carries the payload tag (low two bits `01`).
pub open spec fn spec_is_payload(number: u64) -> bool {
    number & 0b11 == 1
}

/// Holds when a word carries the float tag (low two bits `11`).
pub open spec fn spec_is_f62(number: u64) -> bool {
    number & 0b11 == 0b11
}

/// The word produced by boxing an integer: the value left-shifted by 1, with
/// bit 63 of the value dropped.
pub open spec fn spec_box_integer(integer: i64) -> u64 {
    (integer as u64) << 1
}

/// The integer carried by an integer-tagged word: an arithmetic right shift
/// by 1, so the sign is preserved.
pub open spec fn spec_integer_value(number: u64) -> i64 {
    (number as i64) >> 1
}

/// The integer recovered from a word, absent unless the word carries the
/// integer tag.
pub open spec fn spec_unbox_integer(number: u64) -> Option<i64> {
    if spec_is_integer(number) {
        Some(spec_integer_value(number))
    } else {
        None
    }
}

/// The word produced by boxing a payload: the value left-shifted by 2 with
/// the payload tag, the two top bits of the value dropped.
pub open spec fn spec_box_payload(payload: u64) -> u64 {
    (payload << 2) | 1
}

/// The payload carried by a payload-tagged word.
pub open spec fn spec_payload_value(number: u64) -> u64 {
    number >> 2
}

/// The payload recovered from a word, absent unless the word carries the
/// payload tag.
pub open spec fn spec_unbox_payload(number: u64) -> Option<u64> {
    if spec_is_payload(number) {
        Some(spec_payload_value(number))
    } else {
        None
    }
}

/// The word produced by boxing an `f64` bit pattern: rotated left by 3 and
/// tagged, except the two zero patterns, which pass through unchanged.
pub open spec fn spec_box_float(bits: u64) -> u64 {
    if bits & MAGNITUDE_MASK == 0 {
        bits
    } else {
        ((bits << ROTATION_COUNT) | (bits >> (64 - ROTATION_COUNT))) | 0b11
    }
}

/// The `f64` bit pattern carried by a float-tagged word: the tag bits are
/// replaced by the exponent tail `10` or `01` chosen by the word's top bit,
/// then the word is rotated right by 3.
pub open spec fn spec_float_value(number: u64) -> u64 {
    let exponent_tail: u64 = if number >> 63 == 0 {
        2
    } else {
        1
    };
    let untagged = (number & 0xffff_ffff_ffff_fffc) | exponent_tail;
    (untagged >> ROTATION_COUNT) | (untagged << (64 - ROTATION_COUNT))
}

/// The `f64` bit pattern recovered from a word, absent unless the word
/// carries the float tag.
pub open spec fn spec_unbox_float(number: u64) -> Option<u64> {
    if spec_is_f62(number) {
        Some(spec_float_value(number))
    } else {
        None
    }
}

/// Holds for the `f64` bit patterns that survive the float-branch round
/// trip: non-zero, with the three bits below the sign in one of the two
/// states that the decoder reconstructs. These are the doubles whose
/// exponent lies in the middle of the IEEE-754 range — the "62-bit floats".
pub open spec fn spec_in_float_range(bits: u64) -> bool {
    bits & MAGNITUDE_MASK != 0 && ((bits >> 60) & 7 == 3 || (bits >> 60) & 7 == 4)
}

/// Every word carries exactly one of the three tags.
pub proof fn lemma_tag_exclusive(number: u64)
    ensures
        spec_is_integer(number) ==> !spec_is_payload(number) && !spec_is_f62(number),
        spec_is_payload(number) ==> !spec_is_integer(number) && !spec_is_f62(number),
        spec_is_f62(number) ==> !spec_is_integer(number) && !spec_is_payload(number),
        spec_is_integer(number) || spec_is_payload(number) || spec_is_f62(number),
{
    assert((spec_is_integer(number) ==> !spec_is_payload(number) && !spec_is_f62(number))
        && (spec_is_payload(number) ==> !spec_is_integer(number) && !spec_is_f62(number))
        && (spec_is_f62(number) ==> !spec_is_integer(number) && !spec_is_payload(number))
        && (spec_is_integer(number) || spec_is_payload(number) || spec_is_f62(number)))
        by (bit_vector);
}

/// A boxed integer always carries the integer tag, and every integer in the
/// 63-bit signed range is recovered exactly.
pub proof fn lemma_integer_round_trip(integer: i64)
    ensures
        spec_is_integer(spec_box_integer(integer)),
        -0x4000_0000_0000_0000 <= integer < 0x4000_0000_0000_0000 ==> spec_unbox_integer(
            spec_box_integer(integer),
        ) == Some(integer),
{
    assert(spec_is_integer(spec_box_integer(integer))
        && (-0x4000_0000_0000_0000 <= integer < 0x4000_0000_0000_0000 ==> spec_integer_value(
        spec_box_integer(integer),
    ) == integer)) by (bit_vector);
}

/// The integer carried by any word lies in the 63-bit signed range.
pub proof fn lemma_integer_value_bounds(number: u64)
    ensures
        -0x4000_0000_0000_0000 <= spec_integer_value(number) < 0x4000_0000_0000_0000,
{
    assert(-0x4000_0000_0000_0000 <= spec_integer_value(number) < 0x4000_0000_0000_0000)
        by (bit_vector);
}

/// A boxed payload always carries the payload tag; unboxing keeps exactly
/// the low 62 bits, so every payload below `1 << 62` is recovered exactly.
pub proof fn lemma_payload_round_trip(payload: u64)
    ensures
        spec_is_payload(spec_box_payload(payload)),
        spec_payload_value(spec_box_payload(payload)) == payload & 0x3fff_ffff_ffff_ffff,
        payload < 0x4000_0000_0000_0000 ==> spec_unbox_payload(spec_box_payload(payload))
            == Some(payload),
{
    assert(spec_is_payload(spec_box_payload(payload))
        && spec_payload_value(spec_box_payload(payload)) == payload & 0x3fff_ffff_ffff_ffff
        && (payload < 0x4000_0000_0000_0000 ==> payload & 0x3fff_ffff_ffff_ffff == payload))
        by (bit_vector);
}

/// Zero exclusion: the two zero patterns box to themselves, carry the
/// integer tag rather than the float tag, and therefore never unbox as a
/// float. This asymmetry is deliberate and part of the encoding.
pub proof fn lemma_float_zero_exclusion(bits: u64)
    requires
        bits & MAGNITUDE_MASK == 0,
    ensures
        spec_box_float(bits) == bits,
        !spec_is_f62(bits),
        spec_is_integer(bits),
        spec_unbox_float(spec_box_float(bits)) == None::<u64>,
{
    assert(bits & 0b11 != 0b11 && bits & 1 == 0) by (bit_vector)
        requires
            bits & MAGNITUDE_MASK == 0,
    ;
}

/// Round trip: every non-zero `f64` bit pattern within the 62-bit float
/// range is tagged by boxing and recovered exactly by unboxing.
pub proof fn lemma_float_round_trip(bits: u64)
    requires
        spec_in_float_range(bits),
    ensures
        spec_is_f62(spec_box_float(bits)),
        spec_unbox_float(spec_box_float(bits)) == Some(bits),
{
    assert(spec_is_f62(spec_box_float(bits)) && spec_float_value(spec_box_float(bits)) == bits)
        by (bit_vector)
        requires
            spec_in_float_range(bits),
    ;
}

/// Boxes a 63-bit integer.
#[inline]
pub fn box_integer(integer: i64) -> (r: u64)
    ensures
        r == spec_box_integer(integer),
        spec_is_integer(r),
        -0x4000_0000_0000_0000 <= integer < 0x4000_0000_0000_0000 ==> spec_unbox_integer(r)
            == Some(integer),
{
    proof {
        lemma_integer_round_trip(integer);
    }
    (integer as u64) << 1
}

/// Unboxes a 63-bit integer.
#[inline]
pub fn unbox_integer(number: u64) -> (r: Option<i64>)
    ensures
        r == spec_unbox_integer(number),
        r matches Some(value) ==> -0x4000_0000_0000_0000 <= value < 0x4000_0000_0000_0000,
{
    if is_integer(number) {
        proof {
            lemma_integer_value_bounds(number);
        }
        Some(#[verifier::truncate] (number as i64) >> 1)
    } else {
        None
    }
}

/// Returns `true` if a number is an integer.
#[verifier::when_used_as_spec(spec_is_integer)]
#[inline]
pub fn is_integer(number: u64) -> (r: bool)
    ensures
        r == spec_is_integer(number),
{
    number & 1 == 0
}

/// Boxes a 62-bit payload.
///
/// A `payload` of `1 << 62` or more keeps only its low 62 bits on unboxing.
#[inline]
pub fn box_payload(payload: u64) -> (r: u64)
    ensures
        r == spec_box_payload(payload),
        spec_is_payload(r),
        spec_unbox_payload(r) == Some(payload & 0x3fff_ffff_ffff_ffff),
        payload < 0x4000_0000_0000_0000 ==> spec_unbox_payload(r) == Some(payload),
{
    proof {
        lemma_payload_round_trip(payload);
    }
    (payload << 2) | 1
}

/// Unboxes a 62-bit payload.
#[inline]
pub fn unbox_payload(number: u64) -> (r: Option<u64>)
    ensures
        r == spec_unbox_payload(number),
{
    if is_payload(number) {
        Some(number >> 2)
    } else {
        None
    }
}

/// Returns `true` if a number is a payload.
#[verifier::when_used_as_spec(spec_is_payload)]
#[inline]
pub fn is_payload(number: u64) -> (r: bool)
    ensures
        r == spec_is_payload(number),
{
    number & 0b11 == 1
}

/// Boxes a 64-bit floating-point number given by its bit pattern.
///
/// The two zero patterns pass through untagged: boxing either of `0.0` and
/// `-0.0` yields a word on the integer branch, never the float branch.
#[inline]
pub fn box_float_bits(bits: u64) -> (r: u64)
    ensures
        r == spec_box_float(bits),
        bits & MAGNITUDE_MASK == 0 ==> r == bits && !spec_is_f62(r),
        spec_in_float_range(bits) ==> spec_unbox_float(r) == Some(bits),
{
    proof {
        if bits & MAGNITUDE_MASK == 0 {
            lemma_float_zero_exclusion(bits);
        }
        if spec_in_float_range(bits) {
            lemma_float_round_trip(bits);
        }
    }
    if bits & MAGNITUDE_MASK == 0 {
        bits
    } else {
        ((bits << ROTATION_COUNT) | (bits >> (64 - ROTATION_COUNT))) | 0b11
    }
}

/// Unboxes a 64-bit floating-point number as its bit pattern.
#[inline]
pub fn unbox_float_bits(number: u64) -> (r: Option<u64>)
    ensures
        r == spec_unbox_float(number),
{
    if is_f62(number) {
        Some(unbox_float_bits_unchecked(number))
    } else {
        None
    }
}

/// Undoes the float-branch rotation without checking the tag; on a word of
/// another branch the result is meaningless.
#[inline]
fn unbox_float_bits_unchecked(number: u64) -> (r: u64)
    ensures
        r == spec_float_value(number),
{
    let exponent_tail: u64 = if number >> 63 == 0 {
        2
    } else {
        1
    };
    let untagged = (number & 0xffff_ffff_ffff_fffc) | exponent_tail;
    (untagged >> ROTATION_COUNT) | (untagged << (64 - ROTATION_COUNT))
}

/// Returns `true` if a number is a 62-bit floating-point number.
#[verifier::when_used_as_spec(spec_is_f62)]
#[inline]
pub fn is_f62(number: u64) -> (r: bool)
    ensures
        r == spec_is_f62(number),
{
    number & 0b11 == 0b11
}

/// What a [`Float62`] word carries, decided by its tag alone: an exact
/// integer, an opaque payload, or the bit pattern of an `f64`.
pub enum Float62Value {
    Integer(i64),
    Payload(u64),
    Float(u64),
}

/// A 62-bit floating-point number: one word whose tag bits pick the branch.
#[derive(Clone, Copy, Debug, Default, Eq, PartialEq, Structural)]
pub struct Float62(pub u64);

impl View for Float62 {
    type V = Float62Value;

    open spec fn view(&self) -> Float62Value {
        if spec_is_integer(self.0) {
            Float62Value::Integer(spec_integer_value(self.0))
        } else if spec_is_payload(self.0) {
            Float62Value::Payload(spec_payload_value(self.0))
        } else {
            Float62Value::Float(spec_float_value(self.0))
        }
    }
}

impl Float62 {
    /// The value built from an integer, as seen by specifications.
    pub open spec fn spec_from_integer(integer: i64) -> Float62 {
        Float62(spec_box_integer(integer))
    }

    /// What integer-branch addition yields: the wrapped sum of two integer
    /// words, absent as soon as either operand leaves the integer branch.
    pub open spec fn spec_integer_add(self, rhs: Float62) -> Option<Float62> {
        if spec_is_integer(self.0) && spec_is_integer(rhs.0) {
            Some(
                Float62(
                    spec_box_integer(
                        (spec_integer_value(self.0) + spec_integer_value(rhs.0)) as i64,
                    ),
                ),
            )
        } else {
            None
        }
    }

    /// What integer-branch subtraction yields.
    pub open spec fn spec_integer_sub(self, rhs: Float62) -> Option<Float62> {
        if spec_is_integer(self.0) && spec_is_integer(rhs.0) {
            Some(
                Float62(
                    spec_box_integer(
                        (spec_integer_value(self.0) - spec_integer_value(rhs.0)) as i64,
                    ),
                ),
            )
        } else {
            None
        }
    }

    /// What integer-branch multiplication yields: the product wraps at the
    /// 64-bit width before re-boxing drops its top bit.
    pub open spec fn spec_integer_mul(self, rhs: Float62) -> Option<Float62> {
        if spec_is_integer(self.0) && spec_is_integer(rhs.0) {
            Some(
                Float62(
                    spec_box_integer(
                        i64_specs::wrapping_mul(
                            spec_integer_value(self.0),
                            spec_integer_value(rhs.0),
                        ),
                    ),
                ),
            )
        } else {
            None
        }
    }

    /// The quotient of two integers under division truncated towards zero,
    /// as Rust's `/` computes it.
    pub open spec fn spec_truncated_quotient(x: i64, y: i64) -> int {
        let magnitude = (if x >= 0 {
            x as int
        } else {
            0 - x as int
        }) / (if y >= 0 {
            y as int
        } else {
            0 - y as int
        });
        if (x < 0) != (y < 0) {
            0 - magnitude
        } else {
            magnitude
        }
    }

    /// What integer-branch division yields; meaningful only when the divisor
    /// is not the integer zero.
    pub open spec fn spec_integer_div(self, rhs: Float62) -> Option<Float62> {
        if spec_is_integer(self.0) && spec_is_integer(rhs.0) {
            Some(
                Float62(
                    spec_box_integer(
                        Self::spec_truncated_quotient(
                            spec_integer_value(self.0),
                            spec_integer_value(rhs.0),
                        ) as i64,
                    ),
                ),
            )
        } else {
            None
        }
    }

    /// What integer-branch negation yields.
    pub open spec fn spec_integer_neg(self) -> Option<Float62> {
        if spec_is_integer(self.0) {
            Some(Float62(spec_box_integer((0 - spec_integer_value(self.0)) as i64)))
        } else {
            None
        }
    }

    /// Creates a 62-bit floating-point number from its raw representation.
    #[inline]
    pub fn from_bits(number: u64) -> (r: Self)
        ensures
            r.0 == number,
    {
        Self(number)
    }

    /// Returns a raw representation.
    #[inline]
    pub fn to_bits(self) -> (r: u64)
        ensures
            r == self.0,
    {
        self.0
    }

    /// Creates a 62-bit floating-point number from a payload.
    ///
    /// A payload of `1 << 62` or more keeps only its low 62 bits.
    #[inline]
    pub fn from_payload(payload: u64) -> (r: Self)
        ensures
            r.0 == spec_box_payload(payload),
            r@ == Float62Value::Payload(payload & 0x3fff_ffff_ffff_ffff),
            payload < 0x4000_0000_0000_0000 ==> r@ == Float62Value::Payload(payload),
    {
        proof {
            lemma_payload_round_trip(payload);
            lemma_tag_exclusive(spec_box_payload(payload));
        }
        Self(box_payload(payload))
    }

    /// Creates a 62-bit floating-point number from an integer.
    ///
    /// Exact for the whole 63-bit signed range; bit 63 of a larger value is
    /// dropped.
    #[inline]
    pub fn from_integer(integer: i64) -> (r: Self)
        ensures
            r == Self::spec_from_integer(integer),
            -0x4000_0000_0000_0000 <= integer < 0x4000_0000_0000_0000 ==> r@
                == Float62Value::Integer(integer),
    {
        proof {
            lemma_integer_round_trip(integer);
        }
        Self(box_integer(integer))
    }

    /// Creates a 62-bit floating-point number from the bit pattern of a
    /// 64-bit floating-point number.
    ///
    /// The zero patterns land on the integer branch; see [`box_float_bits`].
    #[inline]
    pub fn from_float_bits(bits: u64) -> (r: Self)
        ensures
            r.0 == spec_box_float(bits),
            spec_in_float_range(bits) ==> r@ == Float62Value::Float(bits),
            bits & MAGNITUDE_MASK == 0 ==> r.0 == bits,
    {
        proof {
            if spec_in_float_range(bits) {
                lemma_float_round_trip(bits);
                lemma_tag_exclusive(spec_box_float(bits));
            }
        }
        Self(box_float_bits(bits))
    }

    /// Returns a payload.
    #[inline]
    pub fn to_payload(self) -> (r: Option<u64>)
        ensures
            r == match self@ {
                Float62Value::Payload(payload) => Some(payload),
                _ => None::<u64>,
            },
    {
        proof {
            lemma_tag_exclusive(self.0);
        }
        unbox_payload(self.0)
    }

    /// Returns an integer.
    #[inline]
    pub fn to_integer(self) -> (r: Option<i64>)
        ensures
            r == match self@ {
                Float62Value::Integer(integer) => Some(integer),
                _ => None::<i64>,
            },
            r matches Some(value) ==> -0x4000_0000_0000_0000 <= value < 0x4000_0000_0000_0000,
    {
        proof {
            lemma_tag_exclusive(self.0);
        }
        unbox_integer(self.0)
    }

    /// Returns the bit pattern of a 64-bit floating-point number.
    #[inline]
    pub fn to_float_bits(self) -> (r: Option<u64>)
        ensures
            r == match self@ {
                Float62Value::Float(bits) => Some(bits),
                _ => None::<u64>,
            },
    {
        proof {
            lemma_tag_exclusive(self.0);
        }
        unbox_float_bits(self.0)
    }

    /// Splits a word for arithmetic: the exact integer where the word is on
    /// the integer branch, and otherwise the word's unchecked float
    /// decoding — which is meaningful only on the float branch, and garbage
    /// for a payload, whose use as an arithmetic operand is caller misuse.
    #[inline]
    pub fn to_number(self) -> (r: Result<i64, u64>)
        ensures
            self@ matches Float62Value::Integer(integer) ==> r == Ok::<i64, u64>(integer),
            !(self@ matches Float62Value::Integer(_)) ==> r == Err::<i64, u64>(
                spec_float_value(self.0),
            ),
    {
        proof {
            lemma_tag_exclusive(self.0);
        }
        match self.to_integer() {
            Some(integer) => Ok(integer),
            None => Err(unbox_float_bits_unchecked(self.0)),
        }
    }

    /// Adds two integer-branch words with wrapping; yields `None` as soon as
    /// either operand leaves the integer branch, in which case the caller
    /// must promote both sides to floating point.
    #[inline]
    pub fn integer_add(self, rhs: Self) -> (r: Option<Self>)
        ensures
            r == self.spec_integer_add(rhs),
            match (self@, rhs@) {
                (Float62Value::Integer(x), Float62Value::Integer(y)) => r matches Some(sum)
                    && sum.0 == spec_box_integer((x + y) as i64) && (-0x4000_0000_0000_0000 <= x + y
                    < 0x4000_0000_0000_0000 ==> sum@ == Float62Value::Integer((x + y) as i64)),
                _ => r is None,
            },
    {
        proof {
            lemma_tag_exclusive(self.0);
            lemma_tag_exclusive(rhs.0);
        }
        match (self.to_integer(), rhs.to_integer()) {
            (Some(x), Some(y)) => Some(Self::from_integer(x + y)),
            _ => None,
        }
    }

    /// Subtracts two integer-branch words with wrapping; `None` as soon as
    /// either operand leaves the integer branch.
    #[inline]
    pub fn integer_sub(self, rhs: Self) -> (r: Option<Self>)
        ensures
            r == self.spec_integer_sub(rhs),
            match (self@, rhs@) {
                (Float62Value::Integer(x), Float62Value::Integer(y)) => r matches Some(difference)
                    && difference.0 == spec_box_integer((x - y) as i64) && (-0x4000_0000_0000_0000
                    <= x - y < 0x4000_0000_0000_0000 ==> difference@ == Float62Value::Integer(
                    (x - y) as i64,
                )),
                _ => r is None,
            },
    {
        proof {
            lemma_tag_exclusive(self.0);
            lemma_tag_exclusive(rhs.0);
        }
        match (self.to_integer(), rhs.to_integer()) {
            (Some(x), Some(y)) => Some(Self::from_integer(x - y)),
            _ => None,
        }
    }

    /// Multiplies two integer-branch words with wrapping; `None` as soon as
    /// either operand leaves the integer branch.
    #[inline]
    pub fn integer_mul(self, rhs: Self) -> (r: Option<Self>)
        ensures
            r == self.spec_integer_mul(rhs),
            match (self@, rhs@) {
                (Float62Value::Integer(x), Float62Value::Integer(y)) => r matches Some(product)
                    && product.0 == spec_box_integer(i64_specs::wrapping_mul(x, y)),
                _ => r is None,
            },
    {
        proof {
            lemma_tag_exclusive(self.0);
            lemma_tag_exclusive(rhs.0);
        }
        match (self.to_integer(), rhs.to_integer()) {
            (Some(x), Some(y)) => Some(Self::from_integer(x.wrapping_mul(y))),
            _ => None,
        }
    }

    /// Divides two integer-branch words, truncating towards zero; `None` as
    /// soon as either operand leaves the integer branch. Dividing by the
    /// integer zero is a caller contract violation, ruled out here as Rust's
    /// division would panic on it.
    #[inline]
    pub fn integer_div(self, rhs: Self) -> (r: Option<Self>)
        requires
            !(spec_is_integer(self.0) && spec_is_integer(rhs.0) && spec_integer_value(rhs.0)
                == 0),
        ensures
            r == self.spec_integer_div(rhs),
            match (self@, rhs@) {
                (Float62Value::Integer(x), Float62Value::Integer(y)) => r matches Some(quotient)
                    && quotient.0 == spec_box_integer(Self::spec_truncated_quotient(x, y) as i64)
                    && (Self::spec_truncated_quotient(x, y) < 0x4000_0000_0000_0000 ==> quotient@
                    == Float62Value::Integer(Self::spec_truncated_quotient(x, y) as i64)),
                _ => r is None,
            },
    {
        proof {
            lemma_tag_exclusive(self.0);
            lemma_tag_exclusive(rhs.0);
        }
        match (self.to_integer(), rhs.to_integer()) {
            (Some(x), Some(y)) => {
                let x_magnitude: u64 = if x >= 0 {
                    x as u64
                } else {
                    (-x) as u64
                };
                let y_magnitude: u64 = if y >= 0 {
                    y as u64
                } else {
                    (-y) as u64
                };
                let quotient = x_magnitude / y_magnitude;
                proof {
                    assert(quotient <= x_magnitude) by (nonlinear_arith)
                        requires
                            quotient == x_magnitude / y_magnitude,
                            y_magnitude >= 1,
                    ;
                }
                let value: i64 = if (x < 0) != (y < 0) {
                    -(quotient as i64)
                } else {
                    quotient as i64
                };
                Some(Self::from_integer(value))
            },
            _ => None,
        }
    }

    /// Negates an integer-branch word; `None` on the payload and float
    /// branches, which the caller must negate in floating point.
    #[inline]
    pub fn integer_neg(self) -> (r: Option<Self>)
        ensures
            r == self.spec_integer_neg(),
            match self@ {
                Float62Value::Integer(x) => r matches Some(negated) && negated.0
                    == spec_box_integer((0 - x) as i64) && (x != -0x4000_0000_0000_0000 ==> negated@
                    == Float62Value::Integer((0 - x) as i64)),
                _ => r is None,
            },
    {
        proof {
            lemma_tag_exclusive(self.0);
        }
        match self.to_integer() {
            Some(x) => Some(Self::from_integer(-x)),
            None => None,
        }
    }
}

/// Negation symmetry on the integer branch: negating the boxed form of `x`
/// yields the boxed form of `-x`, for every `x` in the 63-bit signed range.
pub proof fn lemma_neg_symmetry(integer: i64)
    requires
        -0x4000_0000_0000_0000 <= integer < 0x4000_0000_0000_0000,
    ensures
        Float62::spec_from_integer(integer).spec_integer_neg() == Some(
            Float62::spec_from_integer((0 - integer) as i64),
        ),
{
    lemma_integer_round_trip(integer);
}

/// Integer addition never promotes: the sum of two boxed integers is again
/// a boxed integer, exact whenever the sum stays in the 63-bit signed range.
pub proof fn lemma_integer_addition(x: i64, y: i64)
    requires
        -0x4000_0000_0000_0000 <= x < 0x4000_0000_0000_0000,
        -0x4000_0000_0000_0000 <= y < 0x4000_0000_0000_0000,
    ensures
        Float62::spec_from_integer(x).spec_integer_add(Float62::spec_from_integer(y)) == Some(
            Float62::spec_from_integer((x + y) as i64),
        ),
{
    lemma_integer_round_trip(x);
    lemma_integer_round_trip(y);
}

} // verus!
