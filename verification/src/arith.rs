//! Scalar arithmetic on IEEE 754 binary64 values, represented by their
//! 64-bit patterns.
//!
//! Verus has no model of floating-point arithmetic, so the two operations
//! the matrix kernel needs — addition and multiplication, rounding to
//! nearest with ties to even — are performed by the software
//! implementation in `rustc_apfloat` and named here by uninterpreted spec
//! functions. Every contract of the kernel is stated exactly over these
//! names.
use vstd::prelude::*;
use rustc_apfloat::Float;

verus! {

/// The bit pattern of the binary64 sum of the values with bit patterns
/// `a` and `b`, rounded to nearest, ties to even.
pub uninterp spec fn add_bits(a: u64, b: u64) -> u64;

/// The bit pattern of the binary64 product of the values with bit patterns
/// `a` and `b`, rounded to nearest, ties to even.
pub uninterp spec fn mul_bits(a: u64, b: u64) -> u64;

/// Relies on `rustc_apfloat::ieee::Double`: software IEEE 754 binary64
/// addition with the default rounding (nearest, ties to even), a function
/// of the two bit patterns alone.
#[verifier::external_body]
pub(crate) fn bits_add(a: u64, b: u64) -> (r: u64)
    ensures
        r == add_bits(a, b),
{
    let x = rustc_apfloat::ieee::Double::from_bits(a as u128);
    let y = rustc_apfloat::ieee::Double::from_bits(b as u128);
    (x + y).value.to_bits() as u64
}

/// Relies on `rustc_apfloat::ieee::Double`: software IEEE 754 binary64
/// multiplication with the default rounding (nearest, ties to even), a
/// function of the two bit patterns alone.
#[verifier::external_body]
pub(crate) fn bits_mul(a: u64, b: u64) -> (r: u64)
    ensures
        r == mul_bits(a, b),
{
    let x = rustc_apfloat::ieee::Double::from_bits(a as u128);
    let y = rustc_apfloat::ieee::Double::from_bits(b as u128);
    (x * y).value.to_bits() as u64
}

} // verus!
