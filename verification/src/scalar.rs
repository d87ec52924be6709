//! IEEE-754 binary64 numbers, carried by their bit patterns.
//!
//! A [`Scalar`] is the 64-bit encoding of a double: one sign bit, eleven
//! exponent bits, fifty-two fraction bits. Classification and ordering are
//! decided on the encoding and verified here. Rounded arithmetic is done in
//! software, on the encoding: the four basic operations by `rustc_apfloat`,
//! the square root by `const_soft_float`. Each operation is known to the
//! verifier by a name and by a few facts about infinities, NaNs and zeros.

use vstd::prelude::*;
use const_soft_float::soft_f64::SoftF64;
use rustc_apfloat::ieee::Double;
use rustc_apfloat::Float;

verus! {

/// The sign bit of an encoding.
pub const SIGN_BIT: u64 = 0x8000_0000_0000_0000;

/// The encoding of positive infinity. With the sign bit cleared, every
/// encoding below it is finite and every encoding above it is a NaN.
pub const INFINITY_BITS: u64 = 0x7FF0_0000_0000_0000;

/// The encoding of `0.5`.
pub const HALF_BITS: u64 = 0x3FE0_0000_0000_0000;

/// The encoding of `1.0`.
pub const ONE_BITS: u64 = 0x3FF0_0000_0000_0000;

/// The encoding of `2.0`.
pub const TWO_BITS: u64 = 0x4000_0000_0000_0000;

/// An encoding with its sign bit cleared.
pub open spec fn magnitude_bits(bits: u64) -> u64 {
    if bits >= SIGN_BIT {
        (bits - SIGN_BIT) as u64
    } else {
        bits
    }
}

/// The encoding is neither an infinity nor a NaN.
pub open spec fn finite_bits(bits: u64) -> bool {
    magnitude_bits(bits) < INFINITY_BITS
}

/// The encoding is positive or negative zero.
pub open spec fn zero_bits(bits: u64) -> bool {
    magnitude_bits(bits) == 0
}

/// The two encodings stand for one finite number: they are the same finite
/// encoding, or both are zeros.
pub open spec fn same_finite_bits(a: u64, b: u64) -> bool {
    finite_bits(a) && (a == b || (zero_bits(a) && zero_bits(b)))
}

/// The sum of two doubles, rounded to nearest with ties to even.
pub uninterp spec fn binary64_sum(a: u64, b: u64) -> u64;

/// The difference of two doubles, rounded to nearest with ties to even.
pub uninterp spec fn binary64_difference(a: u64, b: u64) -> u64;

/// The product of two doubles, rounded to nearest with ties to even.
pub uninterp spec fn binary64_product(a: u64, b: u64) -> u64;

/// The quotient of two doubles, rounded to nearest with ties to even.
pub uninterp spec fn binary64_quotient(a: u64, b: u64) -> u64;

/// The square root of a double, rounded to nearest with ties to even.
pub uninterp spec fn binary64_square_root(a: u64) -> u64;

/// The double that equals a 32-bit integer; every such integer is one.
pub uninterp spec fn binary64_from_integer(value: i32) -> u64;

/// Calls `Float::from_i128` of `rustc_apfloat::ieee::Double`.
///
/// Believed, not proved: the call returns for every integer and its result
/// depends on it alone.
#[verifier::external_body]
fn soft_from_integer(value: i32) -> (r: u64)
    ensures
        r == binary64_from_integer(value),
{
    Double::from_i128(value as i128).value.to_bits() as u64
}

/// Calls `+` of `rustc_apfloat::ieee::Double`, which is `Float::add_r` with
/// `Round::NearestTiesToEven`.
///
/// Believed, not proved: the call returns for every pair of encodings and its
/// result depends on them alone; an infinite or NaN operand gives an infinite
/// or NaN sum; the sum of two zeros is a zero.
#[verifier::external_body]
fn soft_add(a: u64, b: u64) -> (r: u64)
    ensures
        r == binary64_sum(a, b),
        !finite_bits(a) || !finite_bits(b) ==> !finite_bits(r),
        zero_bits(a) && zero_bits(b) ==> zero_bits(r),
{
    (Double::from_bits(a as u128) + Double::from_bits(b as u128)).value.to_bits() as u64
}

/// Calls `-` of `rustc_apfloat::ieee::Double`, which is `Float::sub_r` with
/// `Round::NearestTiesToEven`.
///
/// Believed, not proved: the call returns for every pair of encodings and its
/// result depends on them alone; a finite number minus itself is a zero,
/// whichever zeros are involved.
#[verifier::external_body]
fn soft_sub(a: u64, b: u64) -> (r: u64)
    ensures
        r == binary64_difference(a, b),
        same_finite_bits(a, b) ==> zero_bits(r),
{
    (Double::from_bits(a as u128) - Double::from_bits(b as u128)).value.to_bits() as u64
}

/// Calls `*` of `rustc_apfloat::ieee::Double`, which is `Float::mul_r` with
/// `Round::NearestTiesToEven`.
///
/// Believed, not proved: the call returns for every pair of encodings and its
/// result depends on them alone; an infinite or NaN operand gives an infinite
/// or NaN product; the product of two zeros is a zero.
#[verifier::external_body]
fn soft_mul(a: u64, b: u64) -> (r: u64)
    ensures
        r == binary64_product(a, b),
        !finite_bits(a) || !finite_bits(b) ==> !finite_bits(r),
        zero_bits(a) && zero_bits(b) ==> zero_bits(r),
{
    (Double::from_bits(a as u128) * Double::from_bits(b as u128)).value.to_bits() as u64
}

/// Calls `/` of `rustc_apfloat::ieee::Double`, which is `Float::div_r` with
/// `Round::NearestTiesToEven`.
///
/// Believed, not proved: the call returns for every pair of encodings and its
/// result depends on them alone; an infinite or NaN dividend gives an
/// infinite or NaN quotient, and so does a zero divisor.
#[verifier::external_body]
fn soft_div(a: u64, b: u64) -> (r: u64)
    ensures
        r == binary64_quotient(a, b),
        !finite_bits(a) || zero_bits(b) ==> !finite_bits(r),
{
    (Double::from_bits(a as u128) / Double::from_bits(b as u128)).value.to_bits() as u64
}

/// Calls `SoftF64::sqrt` of `const_soft_float`.
///
/// Believed, not proved: the call returns for every encoding and its result
/// depends on it alone; the square root of a zero is a zero.
#[verifier::external_body]
fn soft_sqrt(a: u64) -> (r: u64)
    ensures
        r == binary64_square_root(a),
        zero_bits(a) ==> zero_bits(r),
{
    SoftF64::from_bits(a).sqrt().to_bits()
}

/// A double, held as its encoding.
#[derive(Clone, Copy, Debug)]
pub struct Scalar {
    pub bits: u64,
}

impl Scalar {
    /// The encoding without its sign bit.
    pub open spec fn spec_magnitude(self) -> u64 {
        magnitude_bits(self.bits)
    }

    /// The sign bit is set; it may be on a zero or a NaN.
    pub open spec fn spec_is_sign_negative(self) -> bool {
        self.bits >= SIGN_BIT
    }

    /// Zero, subnormal or normal: neither an infinity nor a NaN.
    pub open spec fn spec_is_finite(self) -> bool {
        finite_bits(self.bits)
    }

    /// Not a number.
    pub open spec fn spec_is_nan(self) -> bool {
        self.spec_magnitude() > INFINITY_BITS
    }

    /// Positive or negative zero.
    pub open spec fn spec_is_zero(self) -> bool {
        zero_bits(self.bits)
    }

    /// Numeric `<`: false when either side is a NaN, and the two zeros are
    /// equal. Among positive numbers the encodings order as the numbers do;
    /// among negative numbers they order the other way round.
    pub open spec fn spec_lt(self, other: Scalar) -> bool {
        &&& !self.spec_is_nan()
        &&& !other.spec_is_nan()
        &&& !(self.spec_is_zero() && other.spec_is_zero())
        &&& if self.spec_is_sign_negative() {
            !other.spec_is_sign_negative() || self.bits > other.bits
        } else {
            !other.spec_is_sign_negative() && self.bits < other.bits
        }
    }

    /// The two are one and the same finite number; the two zeros are.
    pub open spec fn same_finite(self, other: Scalar) -> bool {
        same_finite_bits(self.bits, other.bits)
    }

    /// `self + rhs`.
    pub open spec fn spec_add(self, rhs: Scalar) -> Scalar {
        Scalar { bits: binary64_sum(self.bits, rhs.bits) }
    }

    /// `self - rhs`.
    pub open spec fn spec_sub(self, rhs: Scalar) -> Scalar {
        Scalar { bits: binary64_difference(self.bits, rhs.bits) }
    }

    /// `self * rhs`.
    pub open spec fn spec_mul(self, rhs: Scalar) -> Scalar {
        Scalar { bits: binary64_product(self.bits, rhs.bits) }
    }

    /// `self / rhs`.
    pub open spec fn spec_div(self, rhs: Scalar) -> Scalar {
        Scalar { bits: binary64_quotient(self.bits, rhs.bits) }
    }

    /// The square root of `self`.
    pub open spec fn spec_sqrt(self) -> Scalar {
        Scalar { bits: binary64_square_root(self.bits) }
    }

    /// The double that equals `value`.
    pub open spec fn spec_from_i32(value: i32) -> Scalar {
        Scalar { bits: binary64_from_integer(value) }
    }

    /// `0.0`.
    pub open spec fn spec_zero() -> Scalar {
        Scalar { bits: 0 }
    }

    /// `0.5`.
    pub open spec fn spec_half() -> Scalar {
        Scalar { bits: HALF_BITS }
    }

    /// `1.0`.
    pub open spec fn spec_one() -> Scalar {
        Scalar { bits: ONE_BITS }
    }

    /// `2.0`.
    pub open spec fn spec_two() -> Scalar {
        Scalar { bits: TWO_BITS }
    }

    /// The number with the given encoding.
    pub fn from_bits(bits: u64) -> (r: Scalar)
        ensures
            r.bits == bits,
    {
        Scalar { bits }
    }

    /// The double that equals `value`.
    #[verifier::when_used_as_spec(spec_from_i32)]
    pub fn from_i32(value: i32) -> (r: Scalar)
        ensures
            r == Scalar::spec_from_i32(value),
    {
        Scalar { bits: soft_from_integer(value) }
    }

    /// The encoding of the number.
    pub fn to_bits(self) -> (r: u64)
        ensures
            r == self.bits,
    {
        self.bits
    }

    /// `0.0`.
    #[verifier::when_used_as_spec(spec_zero)]
    pub fn zero() -> (r: Scalar)
        ensures
            r == Scalar::spec_zero(),
    {
        Scalar { bits: 0 }
    }

    /// `0.5`.
    #[verifier::when_used_as_spec(spec_half)]
    pub fn half() -> (r: Scalar)
        ensures
            r == Scalar::spec_half(),
    {
        Scalar { bits: HALF_BITS }
    }

    /// `1.0`.
    #[verifier::when_used_as_spec(spec_one)]
    pub fn one() -> (r: Scalar)
        ensures
            r == Scalar::spec_one(),
    {
        Scalar { bits: ONE_BITS }
    }

    /// `2.0`.
    #[verifier::when_used_as_spec(spec_two)]
    pub fn two() -> (r: Scalar)
        ensures
            r == Scalar::spec_two(),
    {
        Scalar { bits: TWO_BITS }
    }

    /// The encoding of the absolute value.
    #[verifier::when_used_as_spec(spec_magnitude)]
    pub fn magnitude(self) -> (r: u64)
        ensures
            r == self.spec_magnitude(),
    {
        if self.bits >= SIGN_BIT {
            self.bits - SIGN_BIT
        } else {
            self.bits
        }
    }

    /// Whether the sign bit is set.
    #[verifier::when_used_as_spec(spec_is_sign_negative)]
    pub fn is_sign_negative(self) -> (r: bool)
        ensures
            r == self.spec_is_sign_negative(),
    {
        self.bits >= SIGN_BIT
    }

    /// Whether the number is neither an infinity nor a NaN.
    #[verifier::when_used_as_spec(spec_is_finite)]
    pub fn is_finite(self) -> (r: bool)
        ensures
            r == self.spec_is_finite(),
    {
        self.magnitude() < INFINITY_BITS
    }

    /// Whether this is a NaN.
    #[verifier::when_used_as_spec(spec_is_nan)]
    pub fn is_nan(self) -> (r: bool)
        ensures
            r == self.spec_is_nan(),
    {
        self.magnitude() > INFINITY_BITS
    }

    /// Whether this is a zero, of either sign.
    #[verifier::when_used_as_spec(spec_is_zero)]
    pub fn is_zero(self) -> (r: bool)
        ensures
            r == self.spec_is_zero(),
    {
        self.magnitude() == 0
    }

    /// Numeric `self < other`.
    #[verifier::when_used_as_spec(spec_lt)]
    pub fn lt(self, other: Scalar) -> (r: bool)
        ensures
            r == self.spec_lt(other),
    {
        if self.is_nan() || other.is_nan() {
            false
        } else if self.is_zero() && other.is_zero() {
            false
        } else if self.is_sign_negative() {
            !other.is_sign_negative() || self.bits > other.bits
        } else {
            !other.is_sign_negative() && self.bits < other.bits
        }
    }

    /// `self + rhs`. An infinite or NaN operand gives an infinite or NaN sum;
    /// two zeros give a zero.
    #[verifier::when_used_as_spec(spec_add)]
    pub fn add(self, rhs: Scalar) -> (r: Scalar)
        ensures
            r == self.spec_add(rhs),
            !self.is_finite() || !rhs.is_finite() ==> !r.is_finite(),
            self.is_zero() && rhs.is_zero() ==> r.is_zero(),
    {
        Scalar { bits: soft_add(self.bits, rhs.bits) }
    }

    /// `self - rhs`. A finite number minus itself is a zero.
    #[verifier::when_used_as_spec(spec_sub)]
    pub fn sub(self, rhs: Scalar) -> (r: Scalar)
        ensures
            r == self.spec_sub(rhs),
            self.same_finite(rhs) ==> r.is_zero(),
    {
        Scalar { bits: soft_sub(self.bits, rhs.bits) }
    }

    /// `self * rhs`. An infinite or NaN operand gives an infinite or NaN
    /// product; two zeros give a zero.
    #[verifier::when_used_as_spec(spec_mul)]
    pub fn mul(self, rhs: Scalar) -> (r: Scalar)
        ensures
            r == self.spec_mul(rhs),
            !self.is_finite() || !rhs.is_finite() ==> !r.is_finite(),
            self.is_zero() && rhs.is_zero() ==> r.is_zero(),
    {
        Scalar { bits: soft_mul(self.bits, rhs.bits) }
    }

    /// `self / rhs`. An infinite or NaN dividend gives an infinite or NaN
    /// quotient, and so does a zero divisor.
    #[verifier::when_used_as_spec(spec_div)]
    pub fn div(self, rhs: Scalar) -> (r: Scalar)
        ensures
            r == self.spec_div(rhs),
            !self.is_finite() || rhs.is_zero() ==> !r.is_finite(),
    {
        Scalar { bits: soft_div(self.bits, rhs.bits) }
    }

    /// The square root of `self`. The root of a zero is a zero.
    #[verifier::when_used_as_spec(spec_sqrt)]
    pub fn sqrt(self) -> (r: Scalar)
        ensures
            r == self.spec_sqrt(),
            self.is_zero() ==> r.is_zero(),
    {
        Scalar { bits: soft_sqrt(self.bits) }
    }
}

} // verus!
