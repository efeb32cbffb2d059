//! Complex arithmetic on binary64 bit patterns, each operation pinned to
//! the IEEE operation sequence it performs.

use vstd::prelude::*;

verus! {

use crate::ops::add_bits;
use crate::ops::bits_of_u32;
use crate::ops::div_bits;
use crate::ops::f64_add;
use crate::ops::f64_div;
use crate::ops::f64_from_u32;
use crate::ops::f64_mul;
use crate::ops::f64_sub;
use crate::ops::mul_bits;
use crate::ops::sub_bits;
use crate::ops::TWO_BITS;

/// A complex value; each component holds the bit pattern of an IEEE 754
/// binary64 number.
#[derive(Clone, Copy, Debug, PartialEq, Eq, Structural)]
pub struct Complex {
    pub re: u64,
    pub im: u64,
}

/// Componentwise sum.
pub open spec fn complex_add(a: Complex, b: Complex) -> Complex {
    Complex { re: add_bits(a.re, b.re), im: add_bits(a.im, b.im) }
}

/// The square via the identity (re² − im², 2·re·im), with the products
/// taken in the order the operations perform them.
pub open spec fn complex_square(a: Complex) -> Complex {
    Complex {
        re: sub_bits(mul_bits(a.re, a.re), mul_bits(a.im, a.im)),
        im: mul_bits(mul_bits(TWO_BITS, a.re), a.im),
    }
}

/// The squared magnitude re² + im².
pub open spec fn complex_mag_sq(a: Complex) -> u64 {
    add_bits(mul_bits(a.re, a.re), mul_bits(a.im, a.im))
}

impl Complex {
    pub fn new(re: u64, im: u64) -> (c: Complex)
        ensures
            c == (Complex { re, im }),
    {
        Complex { re, im }
    }

    pub fn add(&self, other: &Self) -> (c: Complex)
        ensures
            c == complex_add(*self, *other),
    {
        Complex { re: f64_add(self.re, other.re), im: f64_add(self.im, other.im) }
    }

    /// General product; the render path only ever squares, but extensions
    /// need the full multiplication, with the standard plus sign in the
    /// imaginary part.
    pub fn mul(&self, other: &Self) -> (c: Complex)
        ensures
            c.re == sub_bits(mul_bits(self.re, other.re), mul_bits(self.im, other.im)),
            c.im == add_bits(mul_bits(self.re, other.im), mul_bits(self.im, other.re)),
    {
        Complex {
            re: f64_sub(f64_mul(self.re, other.re), f64_mul(self.im, other.im)),
            im: f64_add(f64_mul(self.re, other.im), f64_mul(self.im, other.re)),
        }
    }

    pub fn square(&self) -> (c: Complex)
        ensures
            c == complex_square(*self),
    {
        Complex {
            re: f64_sub(f64_mul(self.re, self.re), f64_mul(self.im, self.im)),
            im: f64_mul(f64_mul(TWO_BITS, self.re), self.im),
        }
    }

    pub fn magnitude_squared(&self) -> (m: u64)
        ensures
            m == complex_mag_sq(*self),
    {
        f64_add(f64_mul(self.re, self.re), f64_mul(self.im, self.im))
    }

    /// Affine map from pixel space to the viewport rectangle: real part
    /// `min_re + (x / width) * (max_re - min_re)`, imaginary part
    /// `max_im - (y / height) * (max_im - min_im)`. The vertical flip is
    /// intentional (y grows downward on screen, the imaginary axis grows
    /// upward).
    pub fn pixel_to_complex(
        x: u32,
        y: u32,
        width: u32,
        height: u32,
        min_re: u64,
        max_re: u64,
        min_im: u64,
        max_im: u64,
    ) -> (c: Complex)
        ensures
            c.re == add_bits(
                min_re,
                mul_bits(div_bits(bits_of_u32(x), bits_of_u32(width)), sub_bits(max_re, min_re)),
            ),
            c.im == sub_bits(
                max_im,
                mul_bits(div_bits(bits_of_u32(y), bits_of_u32(height)), sub_bits(max_im, min_im)),
            ),
    {
        Complex {
            re: f64_add(
                min_re,
                f64_mul(f64_div(f64_from_u32(x), f64_from_u32(width)), f64_sub(max_re, min_re)),
            ),
            im: f64_sub(
                max_im,
                f64_mul(f64_div(f64_from_u32(y), f64_from_u32(height)), f64_sub(max_im, min_im)),
            ),
        }
    }
}

} // verus!
