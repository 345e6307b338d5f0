//! A 64-bit "number" representation that embraces 49-bit payloads, 49-bit
//! signed integers, and 64-bit floating-point bit patterns.
//!
//! A word outside the boxed class of [`crate::nan`] is a plain `f64` bit
//! pattern passed through unchanged. A boxed word carries either an opaque
//! payload (integer flag clear) or a sign-magnitude integer (integer flag
//! set); the flag bit lies outside both the exponent pattern and the 49 bits
//! that carry a value, so the branches never collide.

use crate::nan;
use vstd::prelude::*;

verus! {

/// The bit distinguishing a boxed signed integer from a boxed payload.
pub const INTEGER_FLAG: u64 = 0x0002_0000_0000_0000;

/// The 49 low bits that actually carry a payload or a magnitude once the
/// integer flag is reserved.
pub const VALUE_MASK: u64 = 0x0001_ffff_ffff_ffff;

/// What an [`N64`] word carries, decided by its bit pattern alone: an opaque
/// payload, a signed integer, or the bit pattern of an `f64`.
pub enum N64Value {
    Payload(u64),
    Integer(i64),
    Float(u64),
}

/// A 64-bit "number": one word classified purely by its own bits.
#[derive(Copy, Clone, Debug, Eq, PartialEq, Structural)]
pub struct N64(pub u64);

impl View for N64 {
    type V = N64Value;

    open spec fn view(&self) -> N64Value {
        if nan::spec_is_boxed(self.0) {
            if self.0 & INTEGER_FLAG == 0 {
                N64Value::Payload(self.0 & nan::PAYLOAD_MASK)
            } else {
                N64Value::Integer(nan::spec_signed_value(self.0 & !INTEGER_FLAG) as i64)
            }
        } else {
            N64Value::Float(self.0)
        }
    }
}

/// Clearing the integer flag never moves a word into or out of the boxed
/// class, keeps its sign bit, and leaves at most 49 bits of magnitude.
proof fn lemma_flag_clear(number: u64)
    ensures
        nan::spec_is_boxed(number & !INTEGER_FLAG) == nan::spec_is_boxed(number),
        (number & !INTEGER_FLAG) & nan::SIGN_MASK == number & nan::SIGN_MASK,
        (number & !INTEGER_FLAG) & nan::PAYLOAD_MASK <= VALUE_MASK,
{
    assert((nan::spec_is_boxed(number & !INTEGER_FLAG) == nan::spec_is_boxed(number)) && ((number
        & !INTEGER_FLAG) & nan::SIGN_MASK == number & nan::SIGN_MASK) && ((number & !INTEGER_FLAG)
        & nan::PAYLOAD_MASK <= VALUE_MASK)) by (bit_vector);
}

/// Boxing a payload below `1 << 49` leaves the integer flag clear and keeps
/// the payload bits intact.
proof fn lemma_payload_boxing(payload: u64)
    ensures
        payload < 0x0002_0000_0000_0000 ==> nan::spec_box_unsigned(payload) & INTEGER_FLAG == 0
            && nan::spec_box_unsigned(payload) & nan::PAYLOAD_MASK == payload,
{
    assert(payload < 0x0002_0000_0000_0000 ==> nan::spec_box_unsigned(payload) & INTEGER_FLAG == 0
        && nan::spec_box_unsigned(payload) & nan::PAYLOAD_MASK == payload) by (bit_vector);
}

/// Boxing a signed integer and setting the flag keeps the word boxed; the
/// flag bit never collides with the sign or with a 49-bit magnitude, so
/// clearing it again recovers every integer of magnitude below `1 << 49`.
proof fn lemma_signed_flag_boxing(integer: i64)
    ensures
        nan::spec_is_boxed(nan::spec_box_signed(integer) | INTEGER_FLAG),
        (nan::spec_box_signed(integer) | INTEGER_FLAG) & INTEGER_FLAG != 0,
        -0x0002_0000_0000_0000 < integer < 0x0002_0000_0000_0000 ==> nan::spec_signed_value(
            (nan::spec_box_signed(integer) | INTEGER_FLAG) & !INTEGER_FLAG,
        ) == integer,
{
    assert(nan::spec_is_boxed(nan::spec_box_signed(integer) | INTEGER_FLAG) && ((
    nan::spec_box_signed(integer) | INTEGER_FLAG) & INTEGER_FLAG != 0) && (-0x0002_0000_0000_0000
        < integer < 0x0002_0000_0000_0000 ==> nan::spec_signed_value(
        (nan::spec_box_signed(integer) | INTEGER_FLAG) & !INTEGER_FLAG,
    ) == integer)) by (bit_vector);
}

impl N64 {
    /// What a word contributes to [`N64::boxed_add`]: its integer where it
    /// is on the integer branch, and zero otherwise — a boxed payload is
    /// silently added as zero.
    pub open spec fn spec_addend(self) -> i64 {
        match self@ {
            N64Value::Integer(integer) => integer,
            _ => 0,
        }
    }

    /// What boxed addition yields: the flagged boxed sum of the two addends
    /// when both words are boxed, absent as soon as either side is a float.
    pub open spec fn spec_boxed_add(self, other: N64) -> Option<N64> {
        if nan::spec_is_boxed(self.0) && nan::spec_is_boxed(other.0) {
            Some(
                N64(
                    nan::spec_box_signed((self.spec_addend() + other.spec_addend()) as i64)
                        | INTEGER_FLAG,
                ),
            )
        } else {
            None
        }
    }

    /// Creates a number from its raw representation.
    #[inline]
    pub fn from_bits(number: u64) -> (r: Self)
        ensures
            r.0 == number,
    {
        Self(number)
    }

    /// Returns a raw representation.
    #[inline]
    pub fn to_bits(self) -> (r: u64)
        ensures
            r == self.0,
    {
        self.0
    }

    /// Returns the bit pattern of a 64-bit floating-point number, absent
    /// when the word is boxed. A genuine double never occupies the boxed
    /// class, so storing its bits and reading them back always succeeds.
    #[inline]
    pub fn to_float_bits(self) -> (r: Option<u64>)
        ensures
            r == match self@ {
                N64Value::Float(bits) => Some(bits),
                _ => None::<u64>,
            },
    {
        if self.is_boxed() {
            None
        } else {
            Some(self.0)
        }
    }

    /// Creates a number from a payload.
    ///
    /// Exact for payloads below `1 << 49`; a larger payload spills into the
    /// integer flag or beyond and is caller misuse.
    #[inline]
    pub fn from_payload(payload: u64) -> (r: Self)
        ensures
            r.0 == nan::spec_box_unsigned(payload),
            payload < 0x0002_0000_0000_0000 ==> r@ == N64Value::Payload(payload),
    {
        proof {
            lemma_payload_boxing(payload);
        }
        Self(nan::box_unsigned(payload))
    }

    /// Returns a payload.
    #[inline]
    pub fn to_payload(self) -> (r: Option<u64>)
        ensures
            r == match self@ {
                N64Value::Payload(payload) => Some(payload),
                _ => None::<u64>,
            },
    {
        if self.is_boxed() && self.0 & INTEGER_FLAG == 0 {
            nan::unbox_unsigned(self.0)
        } else {
            None
        }
    }

    /// Creates a number from an integer.
    ///
    /// Exact for magnitudes below `1 << 49`; a larger magnitude is truncated
    /// by the boxing.
    #[inline]
    pub fn from_signed_integer(integer: i64) -> (r: Self)
        ensures
            r.0 == (nan::spec_box_signed(integer) | INTEGER_FLAG),
            -0x0002_0000_0000_0000 < integer < 0x0002_0000_0000_0000 ==> r@ == N64Value::Integer(
                integer,
            ),
    {
        proof {
            lemma_signed_flag_boxing(integer);
        }
        Self(nan::box_signed(integer) | INTEGER_FLAG)
    }

    /// Returns a signed integer.
    #[inline]
    pub fn to_signed_integer(self) -> (r: Option<i64>)
        ensures
            r == match self@ {
                N64Value::Integer(integer) => Some(integer),
                _ => None::<i64>,
            },
            r matches Some(value) ==> -0x0002_0000_0000_0000 < value < 0x0002_0000_0000_0000,
    {
        proof {
            lemma_flag_clear(self.0);
        }
        if self.is_boxed() && self.0 & INTEGER_FLAG == 0 {
            None
        } else {
            nan::unbox_signed(self.0 & !INTEGER_FLAG)
        }
    }

    /// The integer for addition: zero for a payload or an unboxed float.
    #[inline]
    fn to_signed_integer_unchecked(self) -> (r: i64)
        ensures
            r == self.spec_addend(),
            -0x0002_0000_0000_0000 < r < 0x0002_0000_0000_0000,
    {
        match self.to_signed_integer() {
            Some(integer) => integer,
            None => 0,
        }
    }

    /// Returns `true` if a payload or signed integer is boxed.
    #[inline]
    pub fn is_boxed(self) -> (r: bool)
        ensures
            r == nan::spec_is_boxed(self.0),
            r == !(self@ matches N64Value::Float(_)),
    {
        nan::is_boxed(self.0)
    }

    /// Returns `true` if it is a number: a boxed word without the integer
    /// flag. An unboxed double and a boxed signed integer both yield
    /// `false`.
    #[inline]
    pub fn is_number(self) -> (r: bool)
        ensures
            r == (nan::spec_is_boxed(self.0) && self.0 & INTEGER_FLAG == 0),
            r == (self@ matches N64Value::Payload(_)),
    {
        nan::is_boxed(self.0) && self.0 & INTEGER_FLAG == 0
    }

    /// Adds two boxed words as signed integers — a boxed payload counts as
    /// zero — and yields `None` as soon as either side is an unboxed float,
    /// in which case the caller must add the two words as doubles.
    #[inline]
    pub fn boxed_add(self, other: Self) -> (r: Option<Self>)
        ensures
            r == self.spec_boxed_add(other),
            !(self@ matches N64Value::Float(_)) && !(other@ matches N64Value::Float(_)) ==> (
            r matches Some(sum) && (-0x0002_0000_0000_0000 < self.spec_addend()
                + other.spec_addend() < 0x0002_0000_0000_0000 ==> sum@ == N64Value::Integer(
                (self.spec_addend() + other.spec_addend()) as i64,
            ))),
            (self@ matches N64Value::Float(_)) || (other@ matches N64Value::Float(_)) ==> r
                is None,
    {
        if self.is_boxed() && other.is_boxed() {
            Some(Self::from_signed_integer(
                self.to_signed_integer_unchecked() + other.to_signed_integer_unchecked(),
            ))
        } else {
            None
        }
    }
}

} // verus!
