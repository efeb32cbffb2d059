//! Escape-time classification of one point of the complex plane: the two
//! closed-form fast-reject tests, then the quadratic iteration against the
//! bailout radius, every arithmetic step pinned to its IEEE operation.

use vstd::prelude::*;

verus! {

use crate::complex::complex_add;
use crate::complex::complex_mag_sq;
use crate::complex::complex_square;
use crate::complex::Complex;
use crate::ops::add_bits;
use crate::ops::bits_of_u32;
use crate::ops::div_bits;
use crate::ops::f64_add;
use crate::ops::f64_div;
use crate::ops::f64_from_u32;
use crate::ops::f64_lt;
use crate::ops::f64_mul;
use crate::ops::f64_sub;
use crate::ops::lt_bits;
use crate::ops::mul_bits;
use crate::ops::sub_bits;
use crate::ops::BAILOUT_BITS;
use crate::ops::BULB_BITS;
use crate::ops::ONE_BITS;
use crate::ops::QUARTER_BITS;
use crate::ops::ZERO_BITS;

/// The main-cardioid test: with `q = (re - 0.25)² + im²`, the point is
/// interior when `q * (q + (re - 0.25)) < 0.25 * im²`.
pub open spec fn in_cardioid(c: Complex) -> bool {
    let cy2 = mul_bits(c.im, c.im);
    let d = sub_bits(c.re, QUARTER_BITS);
    let q = add_bits(mul_bits(d, d), cy2);
    lt_bits(mul_bits(q, add_bits(q, d)), mul_bits(QUARTER_BITS, cy2))
}

/// The period-2 bulb test: the point is interior when
/// `(re + 1)² + im² < 0.0625`.
pub open spec fn in_bulb(c: Complex) -> bool {
    let cy2 = mul_bits(c.im, c.im);
    let e = add_bits(c.re, ONE_BITS);
    lt_bits(add_bits(mul_bits(e, e), cy2), BULB_BITS)
}

/// Whether either closed-form test proves the point interior before any
/// iteration.
pub open spec fn fast_reject(c: Complex) -> bool {
    in_cardioid(c) || in_bulb(c)
}

/// The orbit of `c`: `orbit(c, 0)` is zero, and each further step applies
/// `z <- z * z + c` once.
pub open spec fn orbit(c: Complex, k: nat) -> Complex
    decreases k,
{
    if k == 0 {
        Complex { re: ZERO_BITS, im: ZERO_BITS }
    } else {
        complex_add(complex_square(orbit(c, (k - 1) as nat)), c)
    }
}

/// Whether the orbit escapes at iteration index `i` (0-based): the squared
/// magnitude after the step with that index exceeds the bailout 256.0.
pub open spec fn escaped_at(c: Complex, i: nat) -> bool {
    lt_bits(BAILOUT_BITS, complex_mag_sq(orbit(c, i + 1)))
}

/// The smooth iteration value `index + 1 - log_term / ln2`, over the bit
/// patterns of the two logarithm terms.
pub open spec fn smooth_bits(index: u32, log_term: u64, ln2: u64) -> u64 {
    sub_bits(add_bits(bits_of_u32(index), ONE_BITS), div_bits(log_term, ln2))
}

/// The continuous escape-time correction `index + 1 - log_term / ln2`,
/// where `log_term` is ln(ln(sqrt(mag_sq))) at the escape step and `ln2`
/// is ln 2; both are computed outside (the logarithm has no exact IEEE
/// specification) and handed in as bit patterns.
pub fn smooth_value(index: u32, log_term: u64, ln2: u64) -> (s: u64)
    ensures
        s == smooth_bits(index, log_term, ln2),
{
    f64_sub(f64_add(f64_from_u32(index), ONE_BITS), f64_div(log_term, ln2))
}

/// How one point was classified.
#[derive(Clone, Copy, Debug, PartialEq, Eq, Structural)]
pub enum EscapeResult {
    /// Proven interior by a closed-form test, no iteration performed.
    FastReject,
    /// The iteration budget ran out without the orbit escaping.
    Exhausted,
    /// The orbit escaped: `index` is the first escaping iteration index and
    /// `mag_sq` the squared magnitude observed there, from which the smooth
    /// iteration value is derived.
    Escaped { index: u32, mag_sq: u64 },
}

/// What a correct classification of `c` under the budget `max_iter` is:
/// FastReject exactly on the closed-form interior points; otherwise
/// Exhausted exactly when no iteration index under the budget escapes;
/// otherwise the first escaping index with the squared magnitude observed
/// there. Exactly one result satisfies this for each point and budget
/// (`lemma_classification_unique`).
pub open spec fn classifies(c: Complex, max_iter: u32, r: EscapeResult) -> bool {
    &&& ((r is FastReject) <==> fast_reject(c))
    &&& (!fast_reject(c) ==> ((r is Exhausted) <==> (forall|i: int|
        0 <= i < max_iter ==> !(#[trigger] escaped_at(c, i as nat)))))
    &&& (r matches (EscapeResult::Escaped { index, mag_sq }) ==> {
        &&& !fast_reject(c)
        &&& index < max_iter
        &&& escaped_at(c, index as nat)
        &&& mag_sq == complex_mag_sq(orbit(c, index as nat + 1))
        &&& forall|j: int| 0 <= j < index ==> !(#[trigger] escaped_at(c, j as nat))
    })
}

/// Deterministic reproducibility of the classification stage: the relation
/// above admits exactly one result for each point and budget, so any two
/// runs, whatever their scheduling, classify a pixel identically.
pub proof fn lemma_classification_unique(
    c: Complex,
    max_iter: u32,
    r1: EscapeResult,
    r2: EscapeResult,
)
    requires
        classifies(c, max_iter, r1),
        classifies(c, max_iter, r2),
    ensures
        r1 == r2,
{
    match (r1, r2) {
        (
            EscapeResult::Escaped { index: i1, .. },
            EscapeResult::Escaped { index: i2, .. },
        ) => {
            if i1 < i2 {
                assert(!escaped_at(c, i1 as nat));
            }
            if i2 < i1 {
                assert(!escaped_at(c, i2 as nat));
            }
            assert(i1 == i2);
        }
        _ => {}
    }
}

/// Classifies one point: fast rejects first, then up to `max_iter` steps of
/// `z <- z * z + c`, stopping at the first index whose squared magnitude
/// exceeds the bailout.
pub fn classify(c: &Complex, max_iter: u32) -> (r: EscapeResult)
    ensures
        classifies(*c, max_iter, r),
{
    let cx = c.re;
    let cy = c.im;

    let cy2 = f64_mul(cy, cy);
    let d = f64_sub(cx, QUARTER_BITS);
    let q = f64_add(f64_mul(d, d), cy2);

    let cardioid = f64_lt(f64_mul(q, f64_add(q, d)), f64_mul(QUARTER_BITS, cy2));
    let e = f64_add(cx, ONE_BITS);
    let bulb = f64_lt(f64_add(f64_mul(e, e), cy2), BULB_BITS);

    if cardioid || bulb {
        return EscapeResult::FastReject;
    }

    let mut z = Complex::new(ZERO_BITS, ZERO_BITS);
    let mut i: u32 = 0;
    while i < max_iter
        invariant
            i <= max_iter,
            z == orbit(*c, i as nat),
            !fast_reject(*c),
            forall|j: int| 0 <= j < i ==> !(#[trigger] escaped_at(*c, j as nat)),
        decreases max_iter - i,
    {
        z = z.square().add(c);
        proof {
            assert(z == orbit(*c, i as nat + 1));
        }
        let mag_sq = z.magnitude_squared();

        if f64_lt(BAILOUT_BITS, mag_sq) {
            proof {
                let wi: int = i as int;
                assert(escaped_at(*c, wi as nat));
            }
            return EscapeResult::Escaped { index: i, mag_sq };
        }
        i = i + 1;
    }
    EscapeResult::Exhausted
}

} // verus!
