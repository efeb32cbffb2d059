//! Bit-exact core of a Mandelbrot renderer: complex arithmetic and
//! escape-time classification over IEEE 754 bit patterns, the HSL color
//! pipeline, row and frame assembly, and the output header, with the
//! ordering and size guarantees the image format demands.

pub mod color;
pub mod complex;
pub mod escape;
pub mod ops;
pub mod frame;
pub mod header;
