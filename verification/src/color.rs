use vstd::prelude::*;

verus! {

use crate::ops::abs_bits;
use crate::ops::add_bits;
use crate::ops::byte_of_bits;
use crate::ops::div_bits;
use crate::ops::f64_abs;
use crate::ops::f64_add;
use crate::ops::f64_div;
use crate::ops::f64_lt;
use crate::ops::f64_mul;
use crate::ops::f64_rem;
use crate::ops::f64_sub;
use crate::ops::f64_to_byte;
use crate::ops::lt_bits;
use crate::ops::mul_bits;
use crate::ops::rem_bits;
use crate::ops::sub_bits;
use crate::ops::ONE_BITS;
use crate::ops::TWO_BITS;
use crate::ops::ZERO_BITS;

/// Bit pattern of the binary64 value 60.0, the width of one hue sextant.
pub const HUE_60_BITS: u64 = 0x404e000000000000;

/// Bit pattern of the binary64 value 120.0.
pub const HUE_120_BITS: u64 = 0x405e000000000000;

/// Bit pattern of the binary64 value 180.0.
pub const HUE_180_BITS: u64 = 0x4066800000000000;

/// Bit pattern of the binary64 value 240.0.
pub const HUE_240_BITS: u64 = 0x406e000000000000;

/// Bit pattern of the binary64 value 300.0.
pub const HUE_300_BITS: u64 = 0x4072c00000000000;

/// Bit pattern of the binary64 value 200.0, the base of the hue band.
pub const HUE_200_BITS: u64 = 0x4069000000000000;

/// Bit pattern of the binary64 value 0.6, the saturation base.
pub const SAT_BASE_BITS: u64 = 0x3fe3333333333333;

/// Bit pattern of the binary64 value 0.3, the saturation swing.
pub const SAT_SWING_BITS: u64 = 0x3fd3333333333333;

/// Bit pattern of the binary64 value 0.2, the lightness base.
pub const LIGHT_BASE_BITS: u64 = 0x3fc999999999999a;

/// Bit pattern of the binary64 value 0.4, the lightness swing.
pub const LIGHT_SWING_BITS: u64 = 0x3fd999999999999a;

/// Bit pattern of the binary64 value 255.0, the byte scale.
pub const SCALE_255_BITS: u64 = 0x406fe00000000000;

/// One output pixel: red, green and blue channels, each already a byte.
#[derive(Clone, Copy, Debug, PartialEq, Eq, Structural)]
pub struct Rgb {
    pub r: u8,
    pub g: u8,
    pub b: u8,
}

/// The three bytes of one pixel in output order: red, green, blue.
pub open spec fn rgb_bytes(c: Rgb) -> Seq<u8> {
    seq![c.r, c.g, c.b]
}

impl Rgb {
    pub fn new(r: u8, g: u8, b: u8) -> (c: Rgb)
        ensures
            c == (Rgb { r, g, b }),
    {
        Rgb { r, g, b }
    }
}

/// Color of a point that never escapes: dark navy when a closed-form test
/// (main cardioid or period-2 bulb) proved it interior without iterating,
/// pure black when the iteration budget ran out instead.
pub fn interior_color(fast_reject: bool) -> (c: Rgb)
    ensures
        fast_reject ==> c == (Rgb { r: 0, g: 5, b: 25 }),
        !fast_reject ==> c == (Rgb { r: 0, g: 0, b: 0 }),
{
    if fast_reject {
        Rgb { r: 0, g: 5, b: 25 }
    } else {
        Rgb { r: 0, g: 0, b: 0 }
    }
}

/// Chroma of the HSL transform: `(1 - |2l - 1|) * s`.
pub open spec fn hsl_chroma(s: u64, l: u64) -> u64 {
    mul_bits(sub_bits(ONE_BITS, abs_bits(sub_bits(mul_bits(TWO_BITS, l), ONE_BITS))), s)
}

/// Secondary component of the HSL transform: `c * (1 - |(h/60 mod 2) - 1|)`.
pub open spec fn hsl_second(h: u64, c: u64) -> u64 {
    mul_bits(
        c,
        sub_bits(ONE_BITS, abs_bits(sub_bits(rem_bits(div_bits(h, HUE_60_BITS), TWO_BITS), ONE_BITS))),
    )
}

/// Pre-offset channel triple, chosen by which 60-degree sextant the hue
/// falls into.
pub open spec fn hsl_pre(h: u64, c: u64, x: u64) -> (u64, u64, u64) {
    if lt_bits(h, HUE_60_BITS) {
        (c, x, ZERO_BITS)
    } else if lt_bits(h, HUE_120_BITS) {
        (x, c, ZERO_BITS)
    } else if lt_bits(h, HUE_180_BITS) {
        (ZERO_BITS, c, x)
    } else if lt_bits(h, HUE_240_BITS) {
        (ZERO_BITS, x, c)
    } else if lt_bits(h, HUE_300_BITS) {
        (x, ZERO_BITS, c)
    } else {
        (c, ZERO_BITS, x)
    }
}

/// The full HSL to RGB transform on bit patterns: chroma, secondary
/// component, sextant selection, then the lightness offset `m = l - c/2`
/// added to each channel.
pub open spec fn hsl_rgb(h: u64, s: u64, l: u64) -> (u64, u64, u64) {
    let c = hsl_chroma(s, l);
    let x = hsl_second(h, c);
    let m = sub_bits(l, div_bits(c, TWO_BITS));
    let pre = hsl_pre(h, c, x);
    (add_bits(pre.0, m), add_bits(pre.1, m), add_bits(pre.2, m))
}

/// Standard HSL to RGB conversion, every arithmetic step pinned to its
/// IEEE operation.
pub fn hsl_to_rgb(h: u64, s: u64, l: u64) -> (rgb: (u64, u64, u64))
    ensures
        rgb == hsl_rgb(h, s, l),
{
    let c = f64_mul(f64_sub(ONE_BITS, f64_abs(f64_sub(f64_mul(TWO_BITS, l), ONE_BITS))), s);
    let x = f64_mul(
        c,
        f64_sub(ONE_BITS, f64_abs(f64_sub(f64_rem(f64_div(h, HUE_60_BITS), TWO_BITS), ONE_BITS))),
    );
    let m = f64_sub(l, f64_div(c, TWO_BITS));

    let pre: (u64, u64, u64) = if f64_lt(h, HUE_60_BITS) {
        (c, x, ZERO_BITS)
    } else if f64_lt(h, HUE_120_BITS) {
        (x, c, ZERO_BITS)
    } else if f64_lt(h, HUE_180_BITS) {
        (ZERO_BITS, c, x)
    } else if f64_lt(h, HUE_240_BITS) {
        (ZERO_BITS, x, c)
    } else if f64_lt(h, HUE_300_BITS) {
        (x, ZERO_BITS, c)
    } else {
        (c, ZERO_BITS, x)
    };

    (f64_add(pre.0, m), f64_add(pre.1, m), f64_add(pre.2, m))
}

/// Hue of an escaped point: `200 + (2 * smooth mod 120)`, restricting the
/// palette to the blue-through-magenta band.
pub open spec fn escaped_hue(smooth: u64) -> u64 {
    add_bits(HUE_200_BITS, rem_bits(mul_bits(smooth, TWO_BITS), HUE_120_BITS))
}

/// Color of an escaped point, as a function of the smooth iteration value
/// and of the two oscillation terms `sin(0.1 * smooth)` and
/// `cos(0.05 * smooth)`, which are handed in as bit patterns because the
/// transcendental functions have no exact specification.
pub open spec fn escaped_rgb(smooth: u64, sin_term: u64, cos_term: u64) -> Rgb {
    let hue = escaped_hue(smooth);
    let sat = add_bits(SAT_BASE_BITS, mul_bits(abs_bits(sin_term), SAT_SWING_BITS));
    let light = add_bits(LIGHT_BASE_BITS, mul_bits(abs_bits(cos_term), LIGHT_SWING_BITS));
    let rgb = hsl_rgb(hue, sat, light);
    Rgb {
        r: byte_of_bits(mul_bits(rgb.0, SCALE_255_BITS)),
        g: byte_of_bits(mul_bits(rgb.1, SCALE_255_BITS)),
        b: byte_of_bits(mul_bits(rgb.2, SCALE_255_BITS)),
    }
}

/// Maps an escaped point's smooth value and oscillation terms to its pixel:
/// hue from the smooth value, saturation and lightness from the terms, then
/// the HSL transform and the 255 truncation of each channel.
pub fn escaped_color(smooth: u64, sin_term: u64, cos_term: u64) -> (p: Rgb)
    ensures
        p == escaped_rgb(smooth, sin_term, cos_term),
{
    let hue = f64_add(HUE_200_BITS, f64_rem(f64_mul(smooth, TWO_BITS), HUE_120_BITS));
    let sat = f64_add(SAT_BASE_BITS, f64_mul(f64_abs(sin_term), SAT_SWING_BITS));
    let light = f64_add(LIGHT_BASE_BITS, f64_mul(f64_abs(cos_term), LIGHT_SWING_BITS));

    let rgb = hsl_to_rgb(hue, sat, light);
    Rgb {
        r: f64_to_byte(f64_mul(rgb.0, SCALE_255_BITS)),
        g: f64_to_byte(f64_mul(rgb.1, SCALE_255_BITS)),
        b: f64_to_byte(f64_mul(rgb.2, SCALE_255_BITS)),
    }
}

} // verus!
