//! Integer logic of the demos.
pub mod mandelbrot;
