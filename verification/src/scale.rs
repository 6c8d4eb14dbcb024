//! Fit-to-viewport scale calculation.
//!
//! A scale factor is the number a source dimension is divided by to reach
//! its displayed size. It is kept as an exact ratio `num / den` of the two
//! positive dimensions it was derived from, so every comparison and every
//! target size below is exact integer arithmetic.

use vstd::prelude::*;

verus! {

/// A uniform scale factor, the exact ratio `num / den`.
#[derive(Debug, Clone, Copy, PartialEq, Eq, Structural)]
pub struct AxisScale {
    pub num: u32,
    pub den: u32,
}

impl AxisScale {
    /// A scale factor is meaningful only with positive parts.
    pub open spec fn wf(self) -> bool {
        self.num >= 1 && self.den >= 1
    }
}

/// `a <= b` on scale factors, by cross multiplication.
pub open spec fn scale_le(a: AxisScale, b: AxisScale) -> bool {
    a.num * b.den <= b.num * a.den
}

/// The scale factor one axis asks for: `1` when the source already fits
/// and enlarging is not allowed, else exactly `source / available`.
pub open spec fn spec_axis_scale(available: u32, source: u32, allow_upscale: bool) -> AxisScale {
    if available >= source && !allow_upscale {
        AxisScale { num: 1, den: 1 }
    } else {
        AxisScale { num: source, den: available }
    }
}

/// The binding scale factor for a whole image: the larger of the two
/// per-axis factors, so that the scaled image fits both bounds at once.
pub open spec fn spec_fit_scale(
    available: (u32, u32),
    source: (u32, u32),
    allow_upscale: bool,
) -> AxisScale {
    let w = spec_axis_scale(available.0, source.0, allow_upscale);
    let h = spec_axis_scale(available.1, source.1, allow_upscale);
    if scale_le(w, h) {
        h
    } else {
        w
    }
}

/// Division rounding up, on mathematical integers.
pub open spec fn ceil_div(a: int, b: int) -> int {
    (a + b - 1) / b
}

/// The size a source dimension reaches under a scale factor:
/// `ceil(source / (num / den))`.
pub open spec fn spec_target_dim(source: u32, scale: AxisScale) -> int {
    ceil_div(source * scale.den, scale.num as int)
}

/// The size an image reaches inside a viewport under the fit scale.
pub open spec fn spec_target_size(
    available: (u32, u32),
    source: (u32, u32),
    allow_upscale: bool,
) -> (int, int) {
    let s = spec_fit_scale(available, source, allow_upscale);
    (spec_target_dim(source.0, s), spec_target_dim(source.1, s))
}

/// Compute the scale factor of one axis: `1` exactly
/// when the axis already fits and up-scaling is off, else `source / available`.
pub fn compute_axis_scale(available: u32, source: u32, allow_upscale: bool) -> (r: AxisScale)
    requires
        available >= 1,
        source >= 1,
    ensures
        r == spec_axis_scale(available, source, allow_upscale),
        r.wf(),
{
    if available >= source && !allow_upscale {
        AxisScale { num: 1, den: 1 }
    } else {
        AxisScale { num: source, den: available }
    }
}

/// Compute the fit scale of a whole image: the per-axis factors are
/// computed independently and the larger one is returned.
pub fn compute_fit_scale(
    available: (u32, u32),
    source: (u32, u32),
    allow_upscale: bool,
) -> (r: AxisScale)
    requires
        available.0 >= 1,
        available.1 >= 1,
        source.0 >= 1,
        source.1 >= 1,
    ensures
        r == spec_fit_scale(available, source, allow_upscale),
        r.wf(),
{
    let w = compute_axis_scale(available.0, source.0, allow_upscale);
    let h = compute_axis_scale(available.1, source.1, allow_upscale);
    proof {
        lemma_u32_mul_fits_u64(w.num, h.den);
        lemma_u32_mul_fits_u64(h.num, w.den);
    }
    if (w.num as u64) * (h.den as u64) <= (h.num as u64) * (w.den as u64) {
        h
    } else {
        w
    }
}

/// A product of two 32-bit values fits in 64 bits, with room to spare for
/// one more 32-bit summand.
proof fn lemma_u32_mul_fits_u64(a: u32, b: u32)
    by (nonlinear_arith)
    ensures
        a * b <= 0xffff_fffe_0000_0001,
{
}

/// `ceil_div` of a product of positive factors stays at or above one.
proof fn lemma_ceil_div_at_least_one(s: int, d: int, n: int)
    by (nonlinear_arith)
    requires
        s >= 1,
        d >= 1,
        n >= 1,
    ensures
        ceil_div(s * d, n) >= 1,
{
}

/// `ceil_div(s * d, n) <= c` whenever `s * d <= n * c`.
proof fn lemma_ceil_div_le(s: int, d: int, n: int, c: int)
    by (nonlinear_arith)
    requires
        s >= 1,
        d >= 1,
        n >= 1,
        c >= 0,
        s * d <= n * c,
    ensures
        ceil_div(s * d, n) <= c,
{
}

/// Transitivity of the cross-multiplied ratio order:
/// `a/b <= c/d` and `c/d <= e/f` give `a/b <= e/f`.
proof fn lemma_ratio_le_trans(a: int, b: int, c: int, d: int, e: int, f: int)
    by (nonlinear_arith)
    requires
        b >= 1,
        d >= 1,
        f >= 1,
        a * d <= c * b,
        c * f <= e * d,
    ensures
        a * f <= e * b,
{
}

/// Each per-axis scale factor is at least `source / available`.
proof fn lemma_axis_scale_dominates_ratio(available: u32, source: u32, allow_upscale: bool)
    requires
        available >= 1,
        source >= 1,
    ensures
        source * spec_axis_scale(available, source, allow_upscale).den
            <= spec_axis_scale(available, source, allow_upscale).num * available,
{
    let s = spec_axis_scale(available, source, allow_upscale);
    assert(source * s.den <= s.num * available) by (nonlinear_arith)
        requires
            (s.num == 1 && s.den == 1 && source <= available)
                || (s.num == source && s.den == available);
}

/// The fit scale is at least either per-axis scale factor.
proof fn lemma_fit_scale_is_max(available: (u32, u32), source: (u32, u32), allow_upscale: bool)
    requires
        available.0 >= 1,
        available.1 >= 1,
        source.0 >= 1,
        source.1 >= 1,
    ensures
        scale_le(
            spec_axis_scale(available.0, source.0, allow_upscale),
            spec_fit_scale(available, source, allow_upscale),
        ),
        scale_le(
            spec_axis_scale(available.1, source.1, allow_upscale),
            spec_fit_scale(available, source, allow_upscale),
        ),
{
}

/// Containment: under the fit scale, neither target dimension exceeds its
/// viewport bound — the scaled image always fits inside the viewport,
/// whether it was shrunk, left alone, or enlarged.
pub proof fn lemma_fit_scale_contains(available: (u32, u32), source: (u32, u32), allow_upscale: bool)
    requires
        available.0 >= 1,
        available.1 >= 1,
        source.0 >= 1,
        source.1 >= 1,
    ensures
        1 <= spec_target_size(available, source, allow_upscale).0 <= available.0,
        1 <= spec_target_size(available, source, allow_upscale).1 <= available.1,
{
    let fit = spec_fit_scale(available, source, allow_upscale);
    let w = spec_axis_scale(available.0, source.0, allow_upscale);
    let h = spec_axis_scale(available.1, source.1, allow_upscale);
    lemma_axis_scale_dominates_ratio(available.0, source.0, allow_upscale);
    lemma_axis_scale_dominates_ratio(available.1, source.1, allow_upscale);
    lemma_fit_scale_is_max(available, source, allow_upscale);
    lemma_ratio_le_trans(
        source.0 as int, available.0 as int,
        w.num as int, w.den as int,
        fit.num as int, fit.den as int,
    );
    lemma_ratio_le_trans(
        source.1 as int, available.1 as int,
        h.num as int, h.den as int,
        fit.num as int, fit.den as int,
    );
    lemma_ceil_div_le(source.0 as int, fit.den as int, fit.num as int, available.0 as int);
    lemma_ceil_div_le(source.1 as int, fit.den as int, fit.num as int, available.1 as int);
    lemma_ceil_div_at_least_one(source.0 as int, fit.den as int, fit.num as int);
    lemma_ceil_div_at_least_one(source.1 as int, fit.den as int, fit.num as int);
}

/// The size one source dimension reaches under a scale factor, rounded up
/// so a fractional result never truncates a dimension to nothing.
pub fn compute_target_dim(source: u32, scale: AxisScale) -> (r: u32)
    requires
        source >= 1,
        scale.wf(),
        spec_target_dim(source, scale) <= u32::MAX,
    ensures
        r == spec_target_dim(source, scale),
        r >= 1,
{
    proof {
        lemma_u32_mul_fits_u64(source, scale.den);
        lemma_ceil_div_at_least_one(source as int, scale.den as int, scale.num as int);
    }
    let prod: u64 = (source as u64) * (scale.den as u64);
    let r64: u64 = (prod + (scale.num as u64) - 1) / (scale.num as u64);
    r64 as u32
}

/// The target size of a whole image: both dimensions under the fit scale,
/// each at least one pixel and at most its viewport bound.
pub fn compute_target_size(
    available: (u32, u32),
    source: (u32, u32),
    allow_upscale: bool,
) -> (t: (u32, u32))
    requires
        available.0 >= 1,
        available.1 >= 1,
        source.0 >= 1,
        source.1 >= 1,
    ensures
        t.0 == spec_target_size(available, source, allow_upscale).0,
        t.1 == spec_target_size(available, source, allow_upscale).1,
        1 <= t.0 <= available.0,
        1 <= t.1 <= available.1,
{
    proof {
        lemma_fit_scale_contains(available, source, allow_upscale);
    }
    let fit = compute_fit_scale(available, source, allow_upscale);
    let tw = compute_target_dim(source.0, fit);
    let th = compute_target_dim(source.1, fit);
    (tw, th)
}

} // verus!
