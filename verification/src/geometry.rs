//! The geometry mapper: from a pixel coordinate in a W x H raster to the
//! point of the complex plane it samples, given the two corner points of
//! the viewport.

use vstd::prelude::*;

use num::complex::Complex64;

verus! {

/// The point of the complex plane that pixel `(column, row)` of a raster of
/// size `bounds = (width, height)` samples, for the viewport spanned by
/// `upper_left` and `lower_right`: the affine interpolation
/// `re = upper_left.re + column * (lower_right.re - upper_left.re) / width`,
/// `im = upper_left.im - row * (upper_left.im - lower_right.im) / height`.
/// The interpolation runs in 64-bit floating point, which cannot be modelled
/// here, so its value is only named: it is a deterministic function of the
/// four arguments and of nothing else.
pub uninterp spec fn point_of(
    bounds: (usize, usize),
    pixel: (usize, usize),
    upper_left: Complex64,
    lower_right: Complex64,
) -> Complex64;

/// Given the column and row of a pixel in the output raster, returns the
/// corresponding point on the complex plane. Rows grow downward while the
/// imaginary axis grows upward, hence the subtraction on the imaginary
/// component. An out-of-range pixel extrapolates rather than failing;
/// callers are responsible for querying pixels inside the raster.
///
/// Relies on IEEE 754 double arithmetic and on `num_traits`'
/// `ToPrimitive::to_f64`, which converts the integer coordinates the same
/// way a primitive cast does and never fails on them. The result is a pure
/// function of the arguments, named `point_of` above; the exact value at a
/// sample input is checked by a test.
#[verifier::external_body]
pub fn pixel_to_point(
    bounds: (usize, usize),
    pixel: (usize, usize),
    upper_left: Complex64,
    lower_right: Complex64,
) -> (r: Complex64)
    ensures
        r == point_of(bounds, pixel, upper_left, lower_right),
{
    let column = num::ToPrimitive::to_f64(&pixel.0).unwrap();
    let row = num::ToPrimitive::to_f64(&pixel.1).unwrap();
    let width = num::ToPrimitive::to_f64(&bounds.0).unwrap();
    let height = num::ToPrimitive::to_f64(&bounds.1).unwrap();
    num::complex::c64(
        upper_left.re + column * (lower_right.re - upper_left.re) / width,
        upper_left.im - row * (upper_left.im - lower_right.im) / height,
    )
}

} // verus!
