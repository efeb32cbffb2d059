//! IEEE 754 binary64 arithmetic on bit patterns. Each operation below is
//! exactly specified by IEEE 754 (correctly rounded, round to nearest,
//! ties to even), so its result is a pure function of the operand bit
//! patterns; each gets an uninterpreted name that the kernel's contracts
//! are stated over. The transcendental functions (ln, sin, cos) are not
//! exactly specified and have no operation here: callers compute them
//! outside and hand the resulting bit patterns in.

use vstd::prelude::*;

verus! {

use rustc_apfloat::ieee::Double;
use rustc_apfloat::Float;
use rustc_apfloat::Round;

/// Bit pattern of the binary64 value 0.0.
pub const ZERO_BITS: u64 = 0x0;

/// Bit pattern of the binary64 value 0.25.
pub const QUARTER_BITS: u64 = 0x3fd0000000000000;

/// Bit pattern of the binary64 value 0.0625.
pub const BULB_BITS: u64 = 0x3fb0000000000000;

/// Bit pattern of the binary64 value 1.0.
pub const ONE_BITS: u64 = 0x3ff0000000000000;

/// Bit pattern of the binary64 value 2.0.
pub const TWO_BITS: u64 = 0x4000000000000000;

/// Bit pattern of the binary64 value 256.0, the bailout radius squared.
pub const BAILOUT_BITS: u64 = 0x4070000000000000;

/// Bit pattern of the binary64 sum of the numbers with the given patterns.
pub uninterp spec fn add_bits(a: u64, b: u64) -> u64;

/// Bit pattern of the binary64 difference of the numbers with the given
/// patterns.
pub uninterp spec fn sub_bits(a: u64, b: u64) -> u64;

/// Bit pattern of the binary64 product of the numbers with the given
/// patterns.
pub uninterp spec fn mul_bits(a: u64, b: u64) -> u64;

/// Bit pattern of the binary64 quotient of the numbers with the given
/// patterns.
pub uninterp spec fn div_bits(a: u64, b: u64) -> u64;

/// Bit pattern of the binary64 remainder (C fmod) of the numbers with the
/// given patterns.
pub uninterp spec fn rem_bits(a: u64, b: u64) -> u64;

/// Bit pattern of the absolute value of the number with the given pattern.
pub uninterp spec fn abs_bits(a: u64) -> u64;

/// Whether the number with pattern `a` is ordered strictly below the one
/// with pattern `b` (false whenever either is a NaN).
pub uninterp spec fn lt_bits(a: u64, b: u64) -> bool;

/// Bit pattern of the binary64 value nearest to the given integer
/// (exact for every u32).
pub uninterp spec fn bits_of_u32(x: u32) -> u64;

/// The byte the number with the given pattern truncates to: rounded toward
/// zero, saturated to [0, 255], with NaN mapped to 0.
pub uninterp spec fn byte_of_bits(a: u64) -> u8;

/// Relies on rustc_apfloat's Double addition: IEEE 754 binary64, correctly
/// rounded to nearest-even, a pure function of the operand bit patterns.
#[verifier::external_body]
pub fn f64_add(a: u64, b: u64) -> (r: u64)
    ensures
        r == add_bits(a, b),
{
    (Double::from_bits(a as u128) + Double::from_bits(b as u128)).value.to_bits() as u64
}

/// Relies on rustc_apfloat's Double subtraction: IEEE 754 binary64,
/// correctly rounded to nearest-even.
#[verifier::external_body]
pub fn f64_sub(a: u64, b: u64) -> (r: u64)
    ensures
        r == sub_bits(a, b),
{
    (Double::from_bits(a as u128) - Double::from_bits(b as u128)).value.to_bits() as u64
}

/// Relies on rustc_apfloat's Double multiplication: IEEE 754 binary64,
/// correctly rounded to nearest-even.
#[verifier::external_body]
pub fn f64_mul(a: u64, b: u64) -> (r: u64)
    ensures
        r == mul_bits(a, b),
{
    (Double::from_bits(a as u128) * Double::from_bits(b as u128)).value.to_bits() as u64
}

/// Relies on rustc_apfloat's Double division: IEEE 754 binary64, correctly
/// rounded to nearest-even.
#[verifier::external_body]
pub fn f64_div(a: u64, b: u64) -> (r: u64)
    ensures
        r == div_bits(a, b),
{
    (Double::from_bits(a as u128) / Double::from_bits(b as u128)).value.to_bits() as u64
}

/// Relies on rustc_apfloat's Double remainder (c_fmod), the exact IEEE
/// remainder operation behind the `%` of binary64 numbers.
#[verifier::external_body]
pub fn f64_rem(a: u64, b: u64) -> (r: u64)
    ensures
        r == rem_bits(a, b),
{
    (Double::from_bits(a as u128) % Double::from_bits(b as u128)).value.to_bits() as u64
}

/// Relies on rustc_apfloat's Double::abs: clears the sign, an exact
/// operation.
#[verifier::external_body]
pub fn f64_abs(a: u64) -> (r: u64)
    ensures
        r == abs_bits(a),
{
    Double::from_bits(a as u128).abs().to_bits() as u64
}

/// Relies on rustc_apfloat's PartialOrd for Double: the IEEE ordered
/// less-than predicate, false on NaN.
#[verifier::external_body]
pub fn f64_lt(a: u64, b: u64) -> (r: bool)
    ensures
        r == lt_bits(a, b),
{
    Double::from_bits(a as u128) < Double::from_bits(b as u128)
}

/// Relies on rustc_apfloat's Double::from_u128 conversion: every u32 is
/// exactly representable in binary64, so no rounding occurs.
#[verifier::external_body]
pub fn f64_from_u32(x: u32) -> (r: u64)
    ensures
        r == bits_of_u32(x),
{
    Double::from_u128(x as u128).value.to_bits() as u64
}

/// Relies on rustc_apfloat's Double::to_u128_r with rounding toward zero:
/// truncation saturated to the byte range, with NaN mapped to zero.
#[verifier::external_body]
pub fn f64_to_byte(a: u64) -> (r: u8)
    ensures
        r == byte_of_bits(a),
{
    let mut is_exact = false;
    Double::from_bits(a as u128).to_u128_r(8, Round::TowardZero, &mut is_exact).value as u8
}

} // verus!
