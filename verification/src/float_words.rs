//! Trusted access to 32-bit IEEE-754 arithmetic on raw words.
//!
//! The virtual machine keeps every operand as an untagged 32-bit word, so a
//! floating-point operand is the bit pattern of an IEEE-754 single-precision
//! number. The operations themselves are performed by the `rustc_apfloat`
//! soft-float library, which works directly on bit patterns; each operation is
//! a pure function of its argument words, so its result is given a name that
//! the callers' contracts use.
//!
//! The round-to-nearest-even rounding used throughout is the IEEE-754 default
//! and the rounding of ordinary hardware floating point.

use vstd::prelude::*;
use rustc_apfloat::Float;
use rustc_apfloat::ieee::Single;
use rustc_apfloat::Round;

verus! {

/// The IEEE-754 single-precision sum of the numbers `a` and `b` encode,
/// rounded to nearest even, as a bit pattern.
pub uninterp spec fn f32_add_bits(a: u32, b: u32) -> u32;

/// The IEEE-754 single-precision difference, as `f32_add_bits`.
pub uninterp spec fn f32_sub_bits(a: u32, b: u32) -> u32;

/// The IEEE-754 single-precision product, as `f32_add_bits`.
pub uninterp spec fn f32_mul_bits(a: u32, b: u32) -> u32;

/// The IEEE-754 single-precision quotient, as `f32_add_bits`.
pub uninterp spec fn f32_div_bits(a: u32, b: u32) -> u32;

/// Whether the numbers `a` and `b` encode compare equal under IEEE-754:
/// `NaN` equals nothing, positive and negative zero are equal.
pub uninterp spec fn f32_eq_bits(a: u32, b: u32) -> bool;

/// Whether the number `a` encodes is less than the one `b` encodes under
/// IEEE-754; false whenever either is `NaN`.
pub uninterp spec fn f32_lt_bits(a: u32, b: u32) -> bool;

/// The bit pattern of the IEEE-754 single nearest to the signed integer `i`,
/// ties to even.
pub uninterp spec fn f32_of_i32_bits(i: i32) -> u32;

/// The bit pattern of the IEEE-754 single nearest to the unsigned integer
/// `u`, ties to even.
pub uninterp spec fn f32_of_u32_bits(u: u32) -> u32;

/// The signed integer the number `a` encodes truncates to (toward zero),
/// saturated at the `i32` range; zero for `NaN`.
pub uninterp spec fn i32_of_f32_bits(a: u32) -> i32;

/// The unsigned integer the number `a` encodes truncates to (toward zero),
/// saturated at the `u32` range; zero for `NaN` and for negative values.
pub uninterp spec fn u32_of_f32_bits(a: u32) -> u32;

/// The bit pattern the decimal literal written in `digits` denotes, rounded
/// to the nearest IEEE-754 single, or `None` where the bytes spell no such
/// literal.
pub uninterp spec fn f32_literal_bits(digits: Seq<u8>) -> Option<u32>;

/// Relies on `rustc_apfloat::ieee::Single::add_r`: IEEE-754 addition of two
/// single-precision bit patterns, round to nearest even.
#[verifier::external_body]
pub(crate) fn add_f32_words(a: u32, b: u32) -> (r: u32)
    ensures
        r == f32_add_bits(a, b),
{
    let x = Single::from_bits(a as u128);
    let y = Single::from_bits(b as u128);
    x.add_r(y, Round::NearestTiesToEven).value.to_bits() as u32
}

/// Relies on `rustc_apfloat::ieee::Single::sub_r`: IEEE-754 subtraction.
#[verifier::external_body]
pub(crate) fn sub_f32_words(a: u32, b: u32) -> (r: u32)
    ensures
        r == f32_sub_bits(a, b),
{
    let x = Single::from_bits(a as u128);
    let y = Single::from_bits(b as u128);
    x.sub_r(y, Round::NearestTiesToEven).value.to_bits() as u32
}

/// Relies on `rustc_apfloat::ieee::Single::mul_r`: IEEE-754 multiplication.
#[verifier::external_body]
pub(crate) fn mul_f32_words(a: u32, b: u32) -> (r: u32)
    ensures
        r == f32_mul_bits(a, b),
{
    let x = Single::from_bits(a as u128);
    let y = Single::from_bits(b as u128);
    x.mul_r(y, Round::NearestTiesToEven).value.to_bits() as u32
}

/// Relies on `rustc_apfloat::ieee::Single::div_r`: IEEE-754 division.
#[verifier::external_body]
pub(crate) fn div_f32_words(a: u32, b: u32) -> (r: u32)
    ensures
        r == f32_div_bits(a, b),
{
    let x = Single::from_bits(a as u128);
    let y = Single::from_bits(b as u128);
    x.div_r(y, Round::NearestTiesToEven).value.to_bits() as u32
}

/// Relies on `PartialEq for rustc_apfloat::ieee::IeeeFloat`: IEEE-754
/// equality (`NaN` equals nothing, the two zeroes are equal).
#[verifier::external_body]
pub(crate) fn eq_f32_words(a: u32, b: u32) -> (r: bool)
    ensures
        r == f32_eq_bits(a, b),
{
    Single::from_bits(a as u128) == Single::from_bits(b as u128)
}

/// Relies on `PartialOrd for rustc_apfloat::ieee::IeeeFloat`: the IEEE-754
/// order, under which `NaN` is unordered.
#[verifier::external_body]
pub(crate) fn lt_f32_words(a: u32, b: u32) -> (r: bool)
    ensures
        r == f32_lt_bits(a, b),
{
    Single::from_bits(a as u128) < Single::from_bits(b as u128)
}

/// Relies on `rustc_apfloat::Float::from_i128`: signed integer to IEEE-754
/// single, round to nearest even.
#[verifier::external_body]
pub(crate) fn i32_to_f32_words(i: i32) -> (r: u32)
    ensures
        r == f32_of_i32_bits(i),
{
    Single::from_i128(i as i128).value.to_bits() as u32
}

/// Relies on `rustc_apfloat::Float::from_u128`: unsigned integer to IEEE-754
/// single, round to nearest even.
#[verifier::external_body]
pub(crate) fn u32_to_f32_words(u: u32) -> (r: u32)
    ensures
        r == f32_of_u32_bits(u),
{
    Single::from_u128(u as u128).value.to_bits() as u32
}

/// Relies on `rustc_apfloat::Float::to_i128`: IEEE-754 single to signed
/// integer, truncated toward zero; its documentation fixes the outcome of
/// every invalid case (zero for `NaN`, the nearest representable bound for
/// out-of-range values).
#[verifier::external_body]
pub(crate) fn f32_to_i32_words(a: u32) -> (r: i32)
    ensures
        r == i32_of_f32_bits(a),
{
    Single::from_bits(a as u128).to_i128(32).value as i32
}

/// Relies on `rustc_apfloat::Float::to_u128`: IEEE-754 single to unsigned
/// integer, truncated toward zero, with the same fixed invalid cases.
#[verifier::external_body]
pub(crate) fn f32_to_u32_words(a: u32) -> (r: u32)
    ensures
        r == u32_of_f32_bits(a),
{
    Single::from_bits(a as u128).to_u128(32).value as u32
}

/// Relies on `FromStr for rustc_apfloat::ieee::Single`: correctly rounded
/// decimal-to-single conversion, round to nearest even.
#[verifier::external_body]
pub(crate) fn parse_f32_word(digits: &[u8]) -> (r: Option<u32>)
    ensures
        r == f32_literal_bits(digits@),
{
    let s = match core::str::from_utf8(digits) {
        Ok(s) => s,
        Err(_) => return None,
    };
    match s.parse::<Single>() {
        Ok(f) => Some(f.to_bits() as u32),
        Err(_) => None,
    }
}

} // verus!
