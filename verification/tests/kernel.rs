use mandelbrot::color::{escaped_color, hsl_to_rgb, Rgb};
use mandelbrot::complex::Complex;
use mandelbrot::escape::{classify, EscapeResult};

fn bits(v: f64) -> u64 {
    v.to_bits()
}

/// Hardware-float reference for the escape loop, mirroring the documented
/// iteration exactly.
fn reference_classify(cx: f64, cy: f64, max_iter: u32) -> EscapeResult {
    let cy2 = cy * cy;
    let d = cx - 0.25;
    let q = d * d + cy2;
    if q * (q + d) < 0.25 * cy2 || (cx + 1.0) * (cx + 1.0) + cy2 < 0.0625 {
        return EscapeResult::FastReject;
    }
    let (mut zx, mut zy) = (0.0f64, 0.0f64);
    for i in 0..max_iter {
        let (sx, sy) = (zx * zx - zy * zy, 2.0 * zx * zy);
        zx = sx + cx;
        zy = sy + cy;
        let m = zx * zx + zy * zy;
        if m > 256.0 {
            return EscapeResult::Escaped {
                index: i,
                mag_sq: m.to_bits(),
            };
        }
    }
    EscapeResult::Exhausted
}

#[test]
fn pixel_mapping_example() {
    // width 2, height 1, the default viewport: pixel (0,0) maps to
    // (-0.75, 0.11), pixel (1,0) to (-0.745, 0.11) by the affine formula.
    let c0 = Complex::pixel_to_complex(0, 0, 2, 1, bits(-0.75), bits(-0.74), bits(0.10), bits(0.11));
    let e0_re = -0.75 + (0.0f64 / 2.0) * (-0.74 - (-0.75));
    let e0_im = 0.11 - (0.0f64 / 1.0) * (0.11 - 0.10);
    assert_eq!(c0, Complex { re: bits(e0_re), im: bits(e0_im) });
    assert_eq!(f64::from_bits(c0.re), -0.75);
    assert_eq!(f64::from_bits(c0.im), 0.11);

    let c1 = Complex::pixel_to_complex(1, 0, 2, 1, bits(-0.75), bits(-0.74), bits(0.10), bits(0.11));
    let e1_re = -0.75 + (1.0f64 / 2.0) * (-0.74 - (-0.75));
    assert_eq!(c1.re, bits(e1_re));
    assert_eq!(f64::from_bits(c1.re), -0.745);
}

#[test]
fn complex_add_matches_hardware() {
    let a = Complex::new(bits(1.5), bits(-2.25));
    let b = Complex::new(bits(0.1), bits(0.7));
    let s = a.add(&b);
    assert_eq!(s, Complex { re: bits(1.5 + 0.1), im: bits(-2.25 + 0.7) });
}

#[test]
fn complex_square_matches_hardware() {
    let a = Complex::new(bits(1.5), bits(2.5));
    let s = a.square();
    assert_eq!(s, Complex { re: bits(1.5 * 1.5 - 2.5 * 2.5), im: bits(2.0 * 1.5 * 2.5) });
}

#[test]
fn complex_mul_uses_standard_sign() {
    let a = Complex::new(bits(1.5), bits(2.5));
    let b = Complex::new(bits(3.25), bits(-1.75));
    let p = a.mul(&b);
    assert_eq!(p.re, bits(1.5 * 3.25 - 2.5 * (-1.75)));
    assert_eq!(p.im, bits(1.5 * (-1.75) + 2.5 * 3.25));
}

#[test]
fn magnitude_squared_matches_hardware() {
    let a = Complex::new(bits(3.0), bits(4.0));
    assert_eq!(a.magnitude_squared(), bits(25.0));
}

#[test]
fn origin_is_fast_rejected() {
    // c = (0, 0) lies in the main cardioid and must short-circuit.
    let r = classify(&Complex::new(bits(0.0), bits(0.0)), 100);
    assert_eq!(r, EscapeResult::FastReject);
}

#[test]
fn far_point_escapes_at_first_step() {
    // c = (20, 20): the first step gives z = c, whose squared magnitude
    // 800.0 already exceeds the bailout.
    let r = classify(&Complex::new(bits(20.0), bits(20.0)), 100);
    assert_eq!(r, EscapeResult::Escaped { index: 0, mag_sq: bits(800.0) });
}

#[test]
fn integer_orbit_escapes_at_known_index() {
    // c = (1, 0): the orbit 1, 2, 5, 26 stays below the bailout until
    // 26 squared; all values are exact integers.
    let r = classify(&Complex::new(bits(1.0), bits(0.0)), 100);
    assert_eq!(r, EscapeResult::Escaped { index: 3, mag_sq: bits(676.0) });
}

#[test]
fn classification_matches_hardware_reference() {
    // Points with long rounded orbits: the bit-level classification must
    // agree with hardware IEEE arithmetic step for step.
    for &(cx, cy) in &[
        (0.5, 0.5),
        (-0.77, 0.18),
        (0.3, 0.05),
        (-1.0, 0.05),
        (0.25, 0.5),
        (-0.75, 0.11),
        (-0.745, 0.105),
    ] {
        let got = classify(&Complex::new(bits(cx), bits(cy)), 100);
        let want = reference_classify(cx, cy, 100);
        assert_eq!(got, want, "point ({cx}, {cy})");
    }
}

#[test]
fn exhausted_point_stays_bounded() {
    // c = (-1.5, 0): on the real spike, bounded but outside both
    // closed-form regions, so the full budget runs out.
    let r = classify(&Complex::new(bits(-1.5), bits(0.0)), 100);
    assert_eq!(r, EscapeResult::Exhausted);
}

#[test]
fn smooth_formula_matches_hand_computed_logarithms() {
    // c = (20, 20) escapes at index 0 with squared magnitude exactly 800:
    // smooth = 0 + 1 - ln(ln(sqrt(800))) / ln(2).
    let log_term = 800.0f64.sqrt().ln().ln();
    let want = 0.0 + 1.0 - log_term / 2.0f64.ln();
    let got = mandelbrot::escape::smooth_value(0, bits(log_term), bits(2.0f64.ln()));
    assert_eq!(got, bits(want));
    // The hand-computed value: sqrt(800) is about 28.284, ln of that about
    // 3.3434, ln again about 1.2070, divided by ln 2 about 1.7408, so
    // smooth is about -0.7408 (negative: a very first-step escape).
    assert!((f64::from_bits(got) - (-0.7408437645316504)).abs() < 1e-12);
}

fn reference_hsl(h: f64, s: f64, l: f64) -> (f64, f64, f64) {
    let c = (1.0 - (2.0 * l - 1.0).abs()) * s;
    let x = c * (1.0 - ((h / 60.0) % 2.0 - 1.0).abs());
    let m = l - c / 2.0;
    let (r, g, b) = match h {
        h if h < 60.0 => (c, x, 0.0),
        h if h < 120.0 => (x, c, 0.0),
        h if h < 180.0 => (0.0, c, x),
        h if h < 240.0 => (0.0, x, c),
        h if h < 300.0 => (x, 0.0, c),
        _ => (c, 0.0, x),
    };
    (r + m, g + m, b + m)
}

#[test]
fn hsl_matches_hardware_in_every_sextant() {
    for &h in &[30.0, 90.0, 150.0, 210.0, 270.0, 330.0, 250.5] {
        let (r, g, b) = reference_hsl(h, 0.7, 0.4);
        let got = hsl_to_rgb(bits(h), bits(0.7), bits(0.4));
        assert_eq!(got, (bits(r), bits(g), bits(b)), "hue {h}");
    }
}

#[test]
fn escaped_color_matches_hardware_pipeline() {
    for &smooth in &[0.5f64, 3.7, 17.25, 42.0] {
        let sin_term = (smooth * 0.1).sin();
        let cos_term = (smooth * 0.05).cos();
        let hue = 200.0 + (smooth * 2.0) % 120.0;
        let sat = 0.6 + sin_term.abs() * 0.3;
        let light = 0.2 + cos_term.abs() * 0.4;
        let (r, g, b) = reference_hsl(hue, sat, light);
        let want = Rgb {
            r: (r * 255.0) as u8,
            g: (g * 255.0) as u8,
            b: (b * 255.0) as u8,
        };
        let got = escaped_color(bits(smooth), bits(sin_term), bits(cos_term));
        assert_eq!(got, want, "smooth {smooth}");
    }
}
