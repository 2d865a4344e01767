//! Tests of the classification engine, the geometry mapper, the color
//! tables and the renderer, run against the real `num` complex arithmetic.

use mandelbrot_orbits::color::escape_to_shade;
use mandelbrot_orbits::color::period_to_color;
use mandelbrot_orbits::color::period_to_shade;
use mandelbrot_orbits::color::Rgb;
use mandelbrot_orbits::dynamics::calculate_period;
use mandelbrot_orbits::dynamics::escape_time;
use mandelbrot_orbits::dynamics::is_period_p;
use mandelbrot_orbits::dynamics::lambda;
use mandelbrot_orbits::dynamics::phi;
use mandelbrot_orbits::dynamics::phi_n;
use mandelbrot_orbits::dynamics::phi_prime;
use mandelbrot_orbits::geometry::pixel_to_point;
use mandelbrot_orbits::render::render_colorized;
use mandelbrot_orbits::render::render_greyscale;
use num::complex::ComplexFloat;
use num::Complex;

#[test]
fn test_pixel_to_point() {
    assert_eq!(
        pixel_to_point(
            (100, 200),
            (25, 175),
            Complex { re: -1.0, im: 1.0 },
            Complex { re: 1.0, im: -1.0 }
        ),
        Complex {
            re: -0.5,
            im: -0.75
        }
    );
}

#[test]
fn test_phi() {
    let z = Complex { re: 1., im: 1. };
    let c = Complex { re: 1., im: 1. };
    let result = phi(z, c);
    let expected_result = (z * z) + c; // 1+3i
    assert_eq!(
        result, expected_result,
        "expected φ(z) = z² + c = {expected_result:?} where z = {z:?}, got {result:?}"
    );
}

#[test]
fn test_phi_n() {
    let z = Complex { re: 1., im: 1. };
    let c = Complex { re: 1., im: 1. };

    // For n = 1, φ1(z) = z² + c = 1+3i
    let n1: usize = 1;
    let result1 = phi_n(z, c, n1);
    let expected_result1 = (z * z) + c; // 1+3i
    assert_eq!(
        result1, expected_result1,
        "expected φn(z) = {expected_result1:?} where (z, c, n) = ({z:?}, {c:?}, {n1:?}), got {result1:?}"
    );

    // For n = 2, φ2(z) = φ1(z)² + c = ???
    let n2: usize = 2;
    let result2 = phi_n(z, c, n2);
    let expected_result2 = (result1 * result1) + c; // -7+7i
    assert_eq!(
        result2, expected_result2,
        "expected φn(z) = {expected_result2:?} where (z, c, n) = ({z:?}, {c:?}, {n2:?}), got {result2:?}"
    );
}

#[test]
fn test_phi_prime() {
    let z = Complex { re: 1., im: 1. };
    let result = phi_prime(z);
    let expected_result = Complex { re: 2., im: 2. };
    assert_eq!(
        result, expected_result,
        "expected φ'(z) = 2 * z = {expected_result:?} where z = {z:?}, got {result:?}"
    );
}

#[test]
fn test_lambda() {
    let z0 = Complex { re: 0., im: 0. };
    let c = Complex { re: -2., im: 0. };
    let zn = phi_n(z0, c, 1000);
    assert_eq!(lambda(zn, c, 1).abs(), 4.);

    let z = Complex { re: 0., im: 0. };
    let c = Complex { re: 1., im: 1. };

    // For n = 1
    let n1: usize = 1;
    let result1 = lambda(z, c, n1);
    let expected_result1 = Complex { re: 0.0, im: 0.0 };
    assert_eq!(
        result1, expected_result1,
        "expected λ(z,c,n) = {expected_result1:?} where (z, c, n) = ({z:?}, {c:?}, {n1:?}), got {result1:?}"
    );
}

#[test]
fn test_is_period() {
    let z = Complex { re: 0., im: 0. };

    // Point with period of 1
    let c1 = Complex { re: 0., im: 0. };
    assert!(
        is_period_p(z, c1, 1),
        "expected period of point {c1:?} to be 1"
    );

    // Another point with period of 1
    let c2 = Complex { re: -0.1, im: 0.1 };
    assert!(
        is_period_p(z, c2, 1),
        "expected period of point {c2:?} to be 1"
    );
}

#[test]
fn test_calculate_period() {
    let z0 = Complex { re: 0., im: 0. };

    // Outside
    assert_eq!(calculate_period(z0, Complex { re: 0., im: 0. }), 1);

    // Mandelbrot Set
    assert_eq!(calculate_period(z0, Complex { re: 0., im: 0. }), 1); // Period 1
    assert_eq!(calculate_period(z0, Complex { re: -0.1, im: 0.1 }), 1); // Period 1
}

// The center of the period-2 bulb is classified with period 2, and the tip
// of the antenna at -2 — inside the set but on no attracting cycle the
// probe accepts — gets the undetermined period 0.
#[test]
fn test_calculate_period_bulb_and_antenna() {
    let z0 = Complex { re: 0., im: 0. };
    assert_eq!(calculate_period(z0, Complex { re: -1.0, im: 0.0 }), 2);
    assert_eq!(calculate_period(z0, Complex { re: -2.0, im: 0.0 }), 0);
}

// Every point farther than two from the origin escapes at the very next
// check: the first iterate of the origin is the point itself.
#[test]
fn test_escape_time_far_points_escape_fast() {
    let far = [
        Complex { re: 2.5, im: 0.0 },
        Complex { re: -3.0, im: 4.0 },
        Complex { re: 0.0, im: -2.1 },
        Complex { re: 1.8, im: -1.8 },
    ];
    for c in far {
        let r = escape_time(c, 255);
        assert_eq!(r, Some(1), "expected {c:?} to escape at iteration 1");
        assert!(r.unwrap() <= 2);
    }
}

#[test]
fn test_escape_time_interior_points_stay() {
    assert_eq!(escape_time(Complex { re: 0.0, im: 0.0 }, 255), None);
    assert_eq!(escape_time(Complex { re: -1.0, im: 0.0 }, 255), None);
    assert_eq!(escape_time(Complex { re: 0.25, im: 0.0 }, 255), None);
}

#[test]
fn test_escape_time_exact_counts() {
    // c = 2: orbit 0, 2, 6, ... — the square of 2 stays on the disk edge,
    // so escape is only seen at the second check.
    assert_eq!(escape_time(Complex { re: 2.0, im: 0.0 }, 255), Some(2));
    // A tiny budget reports indeterminate even for escaping points.
    assert_eq!(escape_time(Complex { re: 2.5, im: 0.0 }, 1), None);
}

#[test]
fn test_period_shade_table() {
    assert_eq!(period_to_shade(0), 210);
    assert_eq!(period_to_shade(1), 0);
    assert_eq!(period_to_shade(2), 50);
    assert_eq!(period_to_shade(5), 130);
    assert_eq!(period_to_shade(11), 190);
    assert_eq!(period_to_shade(12), 200);
    assert_eq!(period_to_shade(39), 200);
}

#[test]
fn test_period_color_table() {
    assert_eq!(period_to_color(0), Rgb { r: 24, g: 25, b: 41 });
    assert_eq!(period_to_color(1), Rgb { r: 61, g: 64, b: 105 });
    assert_eq!(period_to_color(13), Rgb { r: 255, g: 15, b: 15 });
    assert_eq!(period_to_color(30), Rgb { r: 41, g: 29, b: 24 });
    assert_eq!(period_to_color(31), Rgb { r: 0, g: 0, b: 0 });
    assert_eq!(period_to_color(100), Rgb { r: 0, g: 0, b: 0 });
}

#[test]
fn test_escape_shade_values() {
    assert_eq!(escape_to_shade(0, 255), 255);
    assert_eq!(escape_to_shade(1, 255), 254);
    assert_eq!(escape_to_shade(254, 255), 1);
}

// A single pixel sampling a point far outside the set: the sampled point is
// the upper-left corner itself, it escapes at iteration 1, and the byte is
// 255 - 1.
#[test]
fn test_render_greyscale_single_far_pixel() {
    let mut pixels = vec![0u8; 1];
    render_greyscale(
        &mut pixels,
        (1, 1),
        Complex { re: 3.0, im: 1.0 },
        Complex { re: 4.0, im: 0.0 },
    );
    assert_eq!(pixels, vec![254u8]);
}

#[test]
fn test_render_colorized_single_far_pixel() {
    let mut pixels = vec![Rgb { r: 0, g: 0, b: 0 }; 1];
    render_colorized(
        &mut pixels,
        (1, 1),
        Complex { re: 3.0, im: 1.0 },
        Complex { re: 4.0, im: 0.0 },
    );
    assert_eq!(pixels, vec![Rgb { r: 254, g: 254, b: 254 }]);
}

// Rendering is a pure function of the geometry: two sweeps over identical
// inputs give byte-identical buffers.
#[test]
fn test_render_greyscale_idempotent() {
    let bounds = (8, 8);
    let upper_left = Complex { re: -2.0, im: 1.0 };
    let lower_right = Complex { re: 1.0, im: -1.0 };
    let mut first = vec![0u8; 64];
    let mut second = vec![255u8; 64];
    render_greyscale(&mut first, bounds, upper_left, lower_right);
    render_greyscale(&mut second, bounds, upper_left, lower_right);
    assert_eq!(first, second);
}

#[test]
fn test_render_colorized_idempotent() {
    let bounds = (6, 6);
    let upper_left = Complex { re: -2.0, im: 1.0 };
    let lower_right = Complex { re: 1.0, im: -1.0 };
    let mut first = vec![Rgb { r: 0, g: 0, b: 0 }; 36];
    let mut second = vec![Rgb { r: 9, g: 9, b: 9 }; 36];
    render_colorized(&mut first, bounds, upper_left, lower_right);
    render_colorized(&mut second, bounds, upper_left, lower_right);
    assert_eq!(first, second);
}

// End to end: a 100x200 buffer over the square viewport is fully populated
// — two renders from different initial fills agree at every position, so
// no sentinel of either fill survives anywhere.
#[test]
fn test_render_populates_whole_buffer() {
    let bounds = (100, 200);
    let upper_left = Complex { re: -1.0, im: 1.0 };
    let lower_right = Complex { re: 1.0, im: -1.0 };
    let mut first = vec![0u8; 100 * 200];
    let mut second = vec![255u8; 100 * 200];
    render_greyscale(&mut first, bounds, upper_left, lower_right);
    render_greyscale(&mut second, bounds, upper_left, lower_right);
    assert_eq!(first.len(), 100 * 200);
    assert_eq!(first, second);
}
