[package]
name = "mandelbrot_orbits"
version = "0.1.0"
edition = "2021"
publish = false

[dependencies]
num = "0.4"
image = "0.24"
text-colorizer = "1"
