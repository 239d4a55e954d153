//! Single-precision numbers held by their bit patterns.
//!
//! Arithmetic is done by `rustc_apfloat` on the bits, rounding to nearest with
//! ties to even. The verifier sees each operation as an unspecified but fixed
//! function of the operands' bits.

use rustc_apfloat::ieee::Single;
use rustc_apfloat::Float;
use rustc_apfloat::Round;
use vstd::prelude::*;

verus! {

/// Bits of the rounded sum of two single-precision numbers.
pub uninterp spec fn binary32_sum(a: u32, b: u32) -> u32;

/// Bits of the rounded difference of two single-precision numbers.
pub uninterp spec fn binary32_difference(a: u32, b: u32) -> u32;

/// Bits of the rounded product of two single-precision numbers.
pub uninterp spec fn binary32_product(a: u32, b: u32) -> u32;

/// Bits of the rounded quotient of two single-precision numbers.
pub uninterp spec fn binary32_quotient(a: u32, b: u32) -> u32;

/// Bits of the single-precision number nearest to an unsigned integer.
pub uninterp spec fn binary32_of_count(n: u64) -> u32;

/// Calls `Float::add_r` of `rustc_apfloat` on two `ieee::Single` values made
/// with `Float::from_bits`, rounding to nearest, ties to even. The contract
/// only names the bits that `Float::to_bits` gives for the sum.
#[verifier::external_body]
fn add_bits(a: u32, b: u32) -> (r: u32)
    ensures
        r == binary32_sum(a, b),
{
    let x = Single::from_bits(a as u128);
    let y = Single::from_bits(b as u128);
    x.add_r(y, Round::NearestTiesToEven).value.to_bits() as u32
}

/// Calls `Float::sub_r` of `rustc_apfloat` on two `ieee::Single` values,
/// rounding to nearest, ties to even. The contract only names the bits of
/// the difference.
#[verifier::external_body]
fn sub_bits(a: u32, b: u32) -> (r: u32)
    ensures
        r == binary32_difference(a, b),
{
    let x = Single::from_bits(a as u128);
    let y = Single::from_bits(b as u128);
    x.sub_r(y, Round::NearestTiesToEven).value.to_bits() as u32
}

/// Calls `Float::mul_r` of `rustc_apfloat` on two `ieee::Single` values,
/// rounding to nearest, ties to even. The contract only names the bits of
/// the product.
#[verifier::external_body]
fn mul_bits(a: u32, b: u32) -> (r: u32)
    ensures
        r == binary32_product(a, b),
{
    let x = Single::from_bits(a as u128);
    let y = Single::from_bits(b as u128);
    x.mul_r(y, Round::NearestTiesToEven).value.to_bits() as u32
}

/// Calls `Float::div_r` of `rustc_apfloat` on two `ieee::Single` values,
/// rounding to nearest, ties to even. Division by zero gives an infinity or a
/// NaN and does not panic. The contract only names the bits of the quotient.
#[verifier::external_body]
fn div_bits(a: u32, b: u32) -> (r: u32)
    ensures
        r == binary32_quotient(a, b),
{
    let x = Single::from_bits(a as u128);
    let y = Single::from_bits(b as u128);
    x.div_r(y, Round::NearestTiesToEven).value.to_bits() as u32
}

/// Calls `Float::from_u128` of `rustc_apfloat` for `ieee::Single`, which
/// rounds the integer to nearest, ties to even. The contract only names the
/// bits of the result.
#[verifier::external_body]
fn count_bits(n: u64) -> (r: u32)
    ensures
        r == binary32_of_count(n),
{
    Single::from_u128(n as u128).value.to_bits() as u32
}

/// A single-precision number, identified by its IEEE 754 bit pattern.
///
/// Equality is equality of bit patterns: `0.0` and `-0.0` differ, and a NaN is
/// equal to itself.
#[derive(Clone, Copy, Debug, PartialEq, Eq, Structural)]
pub struct Binary32 {
    pub bits: u32,
}

/// The bits with the sign cleared.
pub open spec fn magnitude_bits(bits: u32) -> u32 {
    bits & 0x7fff_ffffu32
}

impl Binary32 {
    pub fn from_bits(bits: u32) -> (r: Self)
        ensures
            r.bits == bits,
    {
        Binary32 { bits }
    }

    pub fn to_bits(self) -> (r: u32)
        ensures
            r == self.bits,
    {
        self.bits
    }

    /// Positive zero.
    pub fn zero() -> (r: Self)
        ensures
            r == Self::spec_zero(),
    {
        Binary32 { bits: 0 }
    }

    pub open spec fn spec_zero() -> Self {
        Binary32 { bits: 0 }
    }

    /// The number one.
    pub fn one() -> (r: Self)
        ensures
            r == Self::spec_one(),
    {
        Binary32 { bits: 0x3f80_0000 }
    }

    pub open spec fn spec_one() -> Self {
        Binary32 { bits: 0x3f80_0000 }
    }

    /// The number two.
    pub fn two() -> (r: Self)
        ensures
            r == Self::spec_two(),
    {
        Binary32 { bits: 0x4000_0000 }
    }

    pub open spec fn spec_two() -> Self {
        Binary32 { bits: 0x4000_0000 }
    }

    pub open spec fn spec_plus(self, other: Self) -> Self {
        Binary32 { bits: binary32_sum(self.bits, other.bits) }
    }

    pub open spec fn spec_minus(self, other: Self) -> Self {
        Binary32 { bits: binary32_difference(self.bits, other.bits) }
    }

    pub open spec fn spec_times(self, other: Self) -> Self {
        Binary32 { bits: binary32_product(self.bits, other.bits) }
    }

    pub open spec fn spec_over(self, other: Self) -> Self {
        Binary32 { bits: binary32_quotient(self.bits, other.bits) }
    }

    pub open spec fn spec_abs(self) -> Self {
        Binary32 { bits: magnitude_bits(self.bits) }
    }

    pub open spec fn spec_is_zero(self) -> bool {
        magnitude_bits(self.bits) == 0
    }

    pub open spec fn spec_of_count(n: usize) -> Self {
        Binary32 { bits: binary32_of_count(n as u64) }
    }

    /// `self + other`, rounded.
    pub fn plus(self, other: Self) -> (r: Self)
        ensures
            r == self.spec_plus(other),
    {
        Binary32 { bits: add_bits(self.bits, other.bits) }
    }

    /// `self - other`, rounded.
    pub fn minus(self, other: Self) -> (r: Self)
        ensures
            r == self.spec_minus(other),
    {
        Binary32 { bits: sub_bits(self.bits, other.bits) }
    }

    /// `self * other`, rounded.
    pub fn times(self, other: Self) -> (r: Self)
        ensures
            r == self.spec_times(other),
    {
        Binary32 { bits: mul_bits(self.bits, other.bits) }
    }

    /// `self / other`, rounded.
    pub fn over(self, other: Self) -> (r: Self)
        ensures
            r == self.spec_over(other),
    {
        Binary32 { bits: div_bits(self.bits, other.bits) }
    }

    /// The absolute value: the same number with its sign cleared.
    pub fn abs(self) -> (r: Self)
        ensures
            r == self.spec_abs(),
    {
        Binary32 { bits: self.bits & 0x7fff_ffffu32 }
    }

    /// Whether the number is `0.0` or `-0.0`.
    pub fn is_zero(self) -> (r: bool)
        ensures
            r == self.spec_is_zero(),
    {
        (self.bits & 0x7fff_ffffu32) == 0
    }

    /// The number nearest to a count.
    pub fn of_count(n: usize) -> (r: Self)
        ensures
            r == Self::spec_of_count(n),
    {
        Binary32 { bits: count_bits(n as u64) }
    }
}

} // verus!
