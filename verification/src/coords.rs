//! The pixel-coordinate mapper.
//!
//! An integer pixel `(x, y)` maps to a view-plane point whose
//! horizontal coordinate is `1 - (2x/w)·(w/h)` — aspect-corrected and
//! mirrored — and whose vertical coordinate is `1 - 2y/h`, so that
//! screen row 0 maps to the top of the view plane; the view-plane z is
//! always 0. Both coordinates are exact fractions of the integer
//! inputs and are computed here exactly; the embedding program divides
//! them out in floating point when it builds the camera ray.

use vstd::prelude::*;

verus! {

/// An exact fraction `num / den` with a positive denominator.
#[derive(Clone, Copy, PartialEq, Eq, Structural, Debug)]
pub struct Frac {
    pub num: i64,
    pub den: i64,
}

/// A well-formed fraction has a positive denominator.
pub open spec fn frac_wf(f: Frac) -> bool {
    f.den > 0
}

/// Maps pixel `(x, y)` in a `width` by `height` viewport to its
/// view-plane coordinates `(1 - (2x/w)·(w/h), 1 - 2y/h)`, as exact
/// fractions.
pub fn normalize_coords(x: usize, y: usize, width: usize, height: usize) -> (r: (Frac, Frac))
    requires
        0 < width <= 0x1_0000,
        0 < height <= 0x1_0000,
        x <= width,
        y <= height,
    ensures
        r.0.num == width * height - 2 * x * width,
        r.0.den == width * height,
        r.1.num == height - 2 * y,
        r.1.den == height,
        frac_wf(r.0),
        frac_wf(r.1),
{
    let w: i64 = width as i64;
    let h: i64 = height as i64;
    let xi: i64 = x as i64;
    let yi: i64 = y as i64;
    proof {
        crate::vec3::lemma_mul_abs_bound(w as int, h as int, 0x1_0000);
        crate::vec3::lemma_mul_abs_bound(2 * xi, w as int, 0x2_0000);
        assert(w * h >= 1) by (nonlinear_arith)
            requires
                1 <= w,
                1 <= h,
        ;
    }
    let xnum: i64 = w * h - 2 * xi * w;
    let ynum: i64 = h - 2 * yi;
    (Frac { num: xnum, den: w * h }, Frac { num: ynum, den: h })
}

/// Law: the aspect correction cancels exactly — the horizontal
/// coordinate `(w·h - 2x·w) / (w·h)` denotes the same value as
/// `(h - 2x) / h`, for every pixel column and viewport size.
pub proof fn lemma_aspect_cancels(x: int, w: int, h: int)
    by (nonlinear_arith)
    requires
        w > 0,
        h > 0,
    ensures
        (w * h - 2 * x * w) * h == (h - 2 * x) * (w * h),
{
}

} // verus!
