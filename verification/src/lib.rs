//! Classifies points of the complex plane as members or non-members of the
//! Mandelbrot set and renders the classification into a pixel buffer.
//!
//! The iteration `z <- z*z + c` runs over `num`'s 64-bit complex numbers,
//! which stay opaque here: every arithmetic step goes through the trusted
//! boundary in `complex`, and the contracts of everything else are stated
//! over the names that boundary introduces.

pub mod complex;
pub mod dynamics;
pub mod color;
pub mod geometry;
pub mod render;

