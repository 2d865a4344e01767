//! The renderer: sweeps every pixel of the output buffer in row-major
//! order, classifies the sampled point of the complex plane, and writes the
//! mapped intensity or color into the buffer.

use vstd::prelude::*;

use num::complex::Complex64;
use vstd::arithmetic::div_mod::lemma_fundamental_div_mod_converse;

use crate::color::escape_shade;
use crate::color::escape_to_shade;
use crate::color::period_color;
use crate::color::period_shade;
use crate::color::period_to_color;
use crate::color::period_to_shade;
use crate::color::Rgb;
use crate::complex::complex_from_ints;
use crate::complex::complex_of_ints;
use crate::dynamics::calculate_period;
use crate::dynamics::escape_time;
use crate::dynamics::first_escape;
use crate::dynamics::period_of;
use crate::geometry::pixel_to_point;
use crate::geometry::point_of;

verus! {

/// The iteration budget of the escape test during rendering. Chosen to
/// balance image quality against runtime; also the scale of the greyscale
/// shading of escaped points.
pub const ITERATION_LIMIT: usize = 255;

/// The greyscale byte the renderer assigns to the plane point `pt`: the
/// escape shading when the orbit of the origin escapes within the budget,
/// and the period shade of the estimated period otherwise.
pub open spec fn greyscale_at(pt: Complex64) -> u8 {
    match first_escape(pt, ITERATION_LIMIT as nat) {
        Some(i) => escape_shade(i, ITERATION_LIMIT as nat),
        None => period_shade(period_of(complex_of_ints(0, 0), pt)),
    }
}

/// The RGB triple the renderer assigns to the plane point `pt`: a grey
/// triple from the escape shading when the orbit escapes within the budget,
/// and the period color of the estimated period otherwise.
pub open spec fn color_at(pt: Complex64) -> Rgb {
    match first_escape(pt, ITERATION_LIMIT as nat) {
        Some(i) => {
            let v = escape_shade(i, ITERATION_LIMIT as nat);
            (Rgb { r: v, g: v, b: v })
        },
        None => period_color(period_of(complex_of_ints(0, 0), pt)),
    }
}

/// What a finished greyscale buffer holds: one byte per pixel of a
/// `bounds.0 x bounds.1` raster, row-major, each the renderer's greyscale
/// value for the point its pixel samples.
pub open spec fn greyscale_buffer_ok(
    buf: Seq<u8>,
    bounds: (usize, usize),
    upper_left: Complex64,
    lower_right: Complex64,
) -> bool {
    &&& buf.len() == bounds.0 * bounds.1
    &&& forall|idx: int|
        0 <= idx < buf.len() ==> buf[idx] == greyscale_at(
            point_of(
                bounds,
                ((idx % (bounds.0 as int)) as usize, (idx / (bounds.0 as int)) as usize),
                upper_left,
                lower_right,
            ),
        )
}

/// What a finished color buffer holds: one RGB triple per pixel, row-major,
/// each the renderer's color for the point its pixel samples.
pub open spec fn color_buffer_ok(
    buf: Seq<Rgb>,
    bounds: (usize, usize),
    upper_left: Complex64,
    lower_right: Complex64,
) -> bool {
    &&& buf.len() == bounds.0 * bounds.1
    &&& forall|idx: int|
        0 <= idx < buf.len() ==> buf[idx] == color_at(
            point_of(
                bounds,
                ((idx % (bounds.0 as int)) as usize, (idx / (bounds.0 as int)) as usize),
                upper_left,
                lower_right,
            ),
        )
}

/// Classifies the plane point `pt` and maps it to its greyscale byte.
pub fn greyscale_pixel(pt: Complex64) -> (r: u8)
    ensures
        r == greyscale_at(pt),
{
    match escape_time(pt, ITERATION_LIMIT) {
        None => {
            let z0 = complex_from_ints(0, 0);
            let period = calculate_period(z0, pt);
            period_to_shade(period)
        },
        Some(count) => escape_to_shade(count, ITERATION_LIMIT),
    }
}

/// Classifies the plane point `pt` and maps it to its RGB triple.
pub fn color_pixel(pt: Complex64) -> (r: Rgb)
    ensures
        r == color_at(pt),
{
    match escape_time(pt, ITERATION_LIMIT) {
        None => {
            let z0 = complex_from_ints(0, 0);
            let period = calculate_period(z0, pt);
            period_to_color(period)
        },
        Some(count) => {
            let v = escape_to_shade(count, ITERATION_LIMIT);
            Rgb { r: v, g: v, b: v }
        },
    }
}

/// Renders a rectangle of the Mandelbrot set into a greyscale buffer of one
/// byte per pixel. `bounds` gives the width and height of the raster, and
/// the two corner points give the viewport of the complex plane the raster
/// covers. The buffer length must equal `width * height`, and a viewport
/// collapsed to zero width or height is rejected by the precondition.
pub fn render_greyscale(
    pixels: &mut Vec<u8>,
    bounds: (usize, usize),
    upper_left: Complex64,
    lower_right: Complex64,
)
    requires
        bounds.0 > 0,
        bounds.1 > 0,
        old(pixels).len() == bounds.0 * bounds.1,
    ensures
        greyscale_buffer_ok(final(pixels)@, bounds, upper_left, lower_right),
{
    let w = bounds.0;
    let h = bounds.1;
    let mut row: usize = 0;
    while row < h
        invariant
            row <= h,
            w == bounds.0,
            h == bounds.1,
            0 < w,
            pixels.len() == w * h,
            forall|idx: int|
                0 <= idx < row * w ==> pixels@[idx] == greyscale_at(
                    point_of(bounds, ((idx % (w as int)) as usize, (idx / (w as int)) as usize),
                    upper_left, lower_right),
                ),
        decreases h - row,
    {
        let mut column: usize = 0;
        while column < w
            invariant
                row < h,
                column <= w,
                w == bounds.0,
                h == bounds.1,
                0 < w,
                pixels.len() == w * h,
                forall|idx: int|
                    0 <= idx < row * w + column ==> pixels@[idx] == greyscale_at(
                        point_of(bounds, ((idx % (w as int)) as usize, (idx / (w as int)) as usize),
                        upper_left, lower_right),
                    ),
            decreases w - column,
        {
            proof {
                assert(row * w + column < h * w) by (nonlinear_arith)
                    requires
                        row < h,
                        column < w,
                ;
            }
            let point = pixel_to_point(bounds, (column, row), upper_left, lower_right);
            let value = greyscale_pixel(point);
            let idx = row * w + column;
            pixels.set(idx, value);
            proof {
                lemma_fundamental_div_mod_converse(idx as int, w as int, row as int, column as int);
            }
            column = column + 1;
        }
        proof {
            assert((row + 1) * w == row * w + w) by (nonlinear_arith);
        }
        row = row + 1;
    }
    proof {
        assert(h * w == w * h) by (nonlinear_arith);
    }
}

/// Renders a rectangle of the Mandelbrot set into a buffer of one RGB
/// triple per pixel, under the same contract as the greyscale renderer.
pub fn render_colorized(
    pixels: &mut Vec<Rgb>,
    bounds: (usize, usize),
    upper_left: Complex64,
    lower_right: Complex64,
)
    requires
        bounds.0 > 0,
        bounds.1 > 0,
        old(pixels).len() == bounds.0 * bounds.1,
    ensures
        color_buffer_ok(final(pixels)@, bounds, upper_left, lower_right),
{
    let w = bounds.0;
    let h = bounds.1;
    let mut row: usize = 0;
    while row < h
        invariant
            row <= h,
            w == bounds.0,
            h == bounds.1,
            0 < w,
            pixels.len() == w * h,
            forall|idx: int|
                0 <= idx < row * w ==> pixels@[idx] == color_at(
                    point_of(bounds, ((idx % (w as int)) as usize, (idx / (w as int)) as usize),
                    upper_left, lower_right),
                ),
        decreases h - row,
    {
        let mut column: usize = 0;
        while column < w
            invariant
                row < h,
                column <= w,
                w == bounds.0,
                h == bounds.1,
                0 < w,
                pixels.len() == w * h,
                forall|idx: int|
                    0 <= idx < row * w + column ==> pixels@[idx] == color_at(
                        point_of(bounds, ((idx % (w as int)) as usize, (idx / (w as int)) as usize),
                        upper_left, lower_right),
                    ),
            decreases w - column,
        {
            proof {
                assert(row * w + column < h * w) by (nonlinear_arith)
                    requires
                        row < h,
                        column < w,
                ;
            }
            let point = pixel_to_point(bounds, (column, row), upper_left, lower_right);
            let value = color_pixel(point);
            let idx = row * w + column;
            pixels.set(idx, value);
            proof {
                lemma_fundamental_div_mod_converse(idx as int, w as int, row as int, column as int);
            }
            column = column + 1;
        }
        proof {
            assert((row + 1) * w == row * w + w) by (nonlinear_arith);
        }
        row = row + 1;
    }
    proof {
        assert(h * w == w * h) by (nonlinear_arith);
    }
}

/// Rendering is a pure function of its geometry: any two greyscale buffers
/// that satisfy the renderer's postcondition for the same bounds and the
/// same viewport are byte-identical.
pub proof fn lemma_greyscale_render_deterministic(
    b1: Seq<u8>,
    b2: Seq<u8>,
    bounds: (usize, usize),
    upper_left: Complex64,
    lower_right: Complex64,
)
    requires
        greyscale_buffer_ok(b1, bounds, upper_left, lower_right),
        greyscale_buffer_ok(b2, bounds, upper_left, lower_right),
    ensures
        b1 == b2,
{
    assert(b1 =~= b2);
}

/// Rendering is a pure function of its geometry: any two color buffers that
/// satisfy the renderer's postcondition for the same bounds and the same
/// viewport are identical.
pub proof fn lemma_color_render_deterministic(
    b1: Seq<Rgb>,
    b2: Seq<Rgb>,
    bounds: (usize, usize),
    upper_left: Complex64,
    lower_right: Complex64,
)
    requires
        color_buffer_ok(b1, bounds, upper_left, lower_right),
        color_buffer_ok(b2, bounds, upper_left, lower_right),
    ensures
        b1 == b2,
{
    assert(b1 =~= b2);
}

} // verus!
