//! The trusted boundary around `num`'s 64-bit complex numbers.
//!
//! A `Complex64` is opaque to the verifier: floating-point values cannot be
//! modelled here. Each operation the classifier needs is a small wrapper
//! around one `num` call, and what a call returns is given a name — an
//! abstract function of the arguments. IEEE 754 arithmetic is deterministic,
//! so the same arguments always yield the same value, which is exactly what
//! such a name claims. Everything proved about the classifier is relative to
//! these names.

use vstd::prelude::*;

use num::complex::Complex64;

verus! {

#[verifier::external_type_specification]
#[verifier::external_body]
#[verifier::reject_recursive_types(T)]
pub struct ExComplex<T>(num::complex::Complex<T>);

/// The complex number with the given integer real and imaginary parts.
pub uninterp spec fn complex_of_ints(re: int, im: int) -> Complex64;

/// The product of two complex numbers.
pub uninterp spec fn mul_of(a: Complex64, b: Complex64) -> Complex64;

/// The sum of two complex numbers.
pub uninterp spec fn add_of(a: Complex64, b: Complex64) -> Complex64;

/// Whether the squared norm `re*re + im*im` exceeds four, i.e. whether the
/// point lies outside the closed disk of radius two.
pub uninterp spec fn norm_sqr_gt_four(z: Complex64) -> bool;

/// Whether the norm `|z|` is at least one, i.e. whether the point lies on or
/// outside the unit circle.
pub uninterp spec fn norm_ge_one(z: Complex64) -> bool;

/// Relies on `num_complex::c64`, which builds the complex number whose real
/// and imaginary parts are the two arguments; `i32` embeds exactly into a
/// 64-bit float.
#[verifier::external_body]
pub fn complex_from_ints(re: i32, im: i32) -> (r: Complex64)
    ensures
        r == complex_of_ints(re as int, im as int),
{
    num::complex::c64(re, im)
}

/// Relies on `Mul` for `num_complex::Complex`: the product
/// `(a.re*b.re - a.im*b.im) + (a.re*b.im + a.im*b.re)i`.
#[verifier::external_body]
pub fn complex_mul(a: Complex64, b: Complex64) -> (r: Complex64)
    ensures
        r == mul_of(a, b),
{
    a * b
}

/// Relies on `Add` for `num_complex::Complex`: the componentwise sum.
#[verifier::external_body]
pub fn complex_add(a: Complex64, b: Complex64) -> (r: Complex64)
    ensures
        r == add_of(a, b),
{
    a + b
}

/// Relies on `Complex::norm_sqr`, the squared norm `re*re + im*im`. The
/// threshold is the squared norm of the real number two, which is exactly
/// four, so the comparison decides membership in the radius-two disk.
#[verifier::external_body]
pub fn norm_sqr_exceeds_four(z: Complex64) -> (r: bool)
    ensures
        r == norm_sqr_gt_four(z),
{
    z.norm_sqr() > num::complex::c64(2u8, 0u8).norm_sqr()
}

/// Relies on `Complex::norm`, the norm `|z|`; `ComplexFloat::abs` is defined
/// as this same call. The threshold is the squared norm of the real number
/// one, which basic IEEE operations compute as exactly one.
#[verifier::external_body]
pub fn norm_at_least_one(z: Complex64) -> (r: bool)
    ensures
        r == norm_ge_one(z),
{
    z.norm() >= num::complex::c64(1u8, 0u8).norm_sqr()
}

} // verus!
