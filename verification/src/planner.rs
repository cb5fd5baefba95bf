//! Transform planner: given the original dimensions of an image and optional
//! maximum-width / maximum-height bounds, compute the target dimensions.
//!
//! Rounding rule: a scaled dimension is the exact rational product truncated
//! toward zero (integer division), then clamped into `[1, u32::MAX]` so that
//! target dimensions are always at least 1x1.

use vstd::prelude::*;
use vstd::arithmetic::div_mod::{
    lemma_div_is_ordered, lemma_div_multiples_vanish, lemma_fundamental_div_mod,
    lemma_mod_division_less_than_divisor, lemma_div_pos_is_pos,
};
use vstd::arithmetic::mul::lemma_mul_upper_bound;

verus! {

/// Clamp a computed dimension into the range of valid target dimensions:
/// at least 1, at most `u32::MAX`.
pub open spec fn clamp_dim(x: int) -> int {
    if x < 1 {
        1
    } else if x > u32::MAX as int {
        u32::MAX as int
    } else {
        x
    }
}

/// The dimension `dim` scaled by the ratio `num / den`: truncated toward
/// zero, then clamped.
pub open spec fn scaled_dim(dim: int, num: int, den: int) -> int
    recommends
        den >= 1,
{
    clamp_dim(dim * num / den)
}

/// The planning policy:
/// - no bound: dimensions unchanged;
/// - only one bound: scale uniformly so that the bounded axis equals the
///   bound exactly (clamped), the other axis scaled by the same ratio;
/// - both bounds: apply the smaller of the two ratios to both axes, never
///   exceeding 1 (an image that already fits is left unchanged).
pub open spec fn plan_spec(ow: int, oh: int, max_w: Option<u32>, max_h: Option<u32>) -> (int, int) {
    match (max_w, max_h) {
        (Option::None, Option::None) => (ow, oh),
        (Option::None, Option::Some(h)) => (scaled_dim(ow, h as int, oh), clamp_dim(h as int)),
        (Option::Some(w), Option::None) => (clamp_dim(w as int), scaled_dim(oh, w as int, ow)),
        (Option::Some(w), Option::Some(h)) => {
            if ow <= w as int && oh <= h as int {
                (ow, oh)
            } else if (w as int) * oh <= (h as int) * ow {
                (clamp_dim(w as int), scaled_dim(oh, w as int, ow))
            } else {
                (scaled_dim(ow, h as int, oh), clamp_dim(h as int))
            }
        },
    }
}

/// The product of two `u32` values fits in a `u64`.
pub(crate) proof fn lemma_u32_product_fits_u64(a: u32, b: u32)
    ensures
        (a as int) * (b as int) <= u64::MAX as int,
        (a as int) * (b as int) >= 0,
{
    lemma_mul_upper_bound(a as int, u32::MAX as int, b as int, u32::MAX as int);
    vstd::arithmetic::mul::lemma_mul_nonnegative(a as int, b as int);
}

/// One dimension scaled by `num / den`, truncated toward zero and clamped
/// into `[1, u32::MAX]`.
fn scale_dim(dim: u32, num: u32, den: u32) -> (r: u32)
    requires
        den >= 1,
    ensures
        r as int == scaled_dim(dim as int, num as int, den as int),
{
    proof {
        lemma_u32_product_fits_u64(dim, num);
    }
    let p: u64 = dim as u64 * num as u64;
    let q: u64 = p / den as u64;
    if q < 1 {
        1
    } else if q > u32::MAX as u64 {
        u32::MAX
    } else {
        q as u32
    }
}

/// Compute the target dimensions for an image of size `orig_w x orig_h`
/// under the optional bounds `max_w` / `max_h`, per `plan_spec`.
pub fn plan(orig_w: u32, orig_h: u32, max_w: Option<u32>, max_h: Option<u32>) -> (r: (u32, u32))
    requires
        orig_w >= 1,
        orig_h >= 1,
    ensures
        (r.0 as int, r.1 as int) == plan_spec(orig_w as int, orig_h as int, max_w, max_h),
        r.0 >= 1,
        r.1 >= 1,
{
    match (max_w, max_h) {
        (Option::None, Option::None) => (orig_w, orig_h),
        (Option::None, Option::Some(h)) => {
            let nw = scale_dim(orig_w, h, orig_h);
            let nh = if h < 1 { 1 } else { h };
            (nw, nh)
        },
        (Option::Some(w), Option::None) => {
            let nw = if w < 1 { 1 } else { w };
            let nh = scale_dim(orig_h, w, orig_w);
            (nw, nh)
        },
        (Option::Some(w), Option::Some(h)) => {
            if orig_w <= w && orig_h <= h {
                (orig_w, orig_h)
            } else {
                proof {
                    lemma_u32_product_fits_u64(w, orig_h);
                    lemma_u32_product_fits_u64(h, orig_w);
                }
                if (w as u64) * (orig_h as u64) <= (h as u64) * (orig_w as u64) {
                    let nw = if w < 1 { 1 } else { w };
                    let nh = scale_dim(orig_h, w, orig_w);
                    (nw, nh)
                } else {
                    let nw = scale_dim(orig_w, h, orig_h);
                    let nh = if h < 1 { 1 } else { h };
                    (nw, nh)
                }
            }
        },
    }
}

/// No-upscale invariant: the planned dimensions equal the original
/// dimensions exactly when no bound is given, when both bounds are given
/// and the original dimensions already fit within them, or when the one
/// bound given equals its axis exactly. (A single bound strictly above its
/// axis is excluded: the policy then scales the image up to the bound.)
pub proof fn lemma_no_upscale(ow: int, oh: int, max_w: Option<u32>, max_h: Option<u32>)
    requires
        1 <= ow <= u32::MAX,
        1 <= oh <= u32::MAX,
        (max_w is None && max_h is None) || (max_w is Some && max_h is Some && ow
            <= max_w->Some_0 as int && oh <= max_h->Some_0 as int) || (max_w is Some
            && max_h is None && ow == max_w->Some_0 as int) || (max_w is None
            && max_h is Some && oh == max_h->Some_0 as int),
    ensures
        plan_spec(ow, oh, max_w, max_h) == (ow, oh),
{
    if max_w is Some && max_h is None {
        lemma_self_ratio_vanishes(oh, ow);
    }
    if max_w is None && max_h is Some {
        lemma_self_ratio_vanishes(ow, oh);
    }
}

/// Scaling a dimension by `den / den` leaves it unchanged.
proof fn lemma_self_ratio_vanishes(dim: int, den: int)
    requires
        1 <= dim <= u32::MAX,
        1 <= den,
    ensures
        scaled_dim(dim, den, den) == dim,
{
    assert(dim * den == den * dim) by (nonlinear_arith);
    lemma_div_multiples_vanish(dim, den);
}

/// The scaled dimension does not saturate at `u32::MAX` when the exact
/// product stays within range.
proof fn lemma_no_saturation(dim: int, num: int, den: int)
    requires
        1 <= den,
        0 <= dim,
        0 <= num,
        dim * num <= u32::MAX * den,
    ensures
        dim * num / den <= u32::MAX as int,
{
    lemma_div_is_ordered(dim * num, u32::MAX * den, den);
    assert(u32::MAX * den == den * (u32::MAX as int)) by (nonlinear_arith);
    lemma_div_multiples_vanish(u32::MAX as int, den);
}

/// The scaled-and-clamped dimension lies within one of the exact rational
/// `dim * num / den`: `dim * num - den < scaled * den <= dim * num + den`.
proof fn lemma_scaled_dim_bounds(dim: int, num: int, den: int)
    requires
        1 <= dim,
        0 <= num,
        1 <= den,
        dim * num <= u32::MAX * den,
    ensures
        scaled_dim(dim, num, den) * den <= dim * num + den,
        dim * num < scaled_dim(dim, num, den) * den + den,
{
    let a = dim * num;
    vstd::arithmetic::mul::lemma_mul_nonnegative(dim, num);
    lemma_fundamental_div_mod(a, den);
    lemma_mod_division_less_than_divisor(a, den);
    lemma_div_pos_is_pos(a, den);
    lemma_no_saturation(dim, num, den);
    let q = a / den;
    assert(q * den == den * q) by (nonlinear_arith);
    let s = clamp_dim(q);
    if q < 1 {
        assert(q == 0);
        assert(den * q == 0) by (nonlinear_arith)
            requires
                q == 0,
        ;
        assert(a < den);
        assert(s == 1);
        assert(s * den == den) by (nonlinear_arith)
            requires
                s == 1,
        ;
    } else {
        assert(s == q);
    }
}

/// Aspect-ratio preservation, height bound only: the planned height equals
/// the (clamped) bound, and the planned width is within one pixel of the
/// exact rational width `ow * h / oh`, stated without division:
/// `ow * h - oh < nw * oh <= ow * h + oh`.
pub proof fn lemma_aspect_ratio_height_bound(ow: int, oh: int, h: u32)
    requires
        1 <= ow <= u32::MAX,
        1 <= oh <= u32::MAX,
        1 <= h,
        ow * h <= u32::MAX * oh,
    ensures
        ({
            let (nw, nh) = plan_spec(ow, oh, Option::None, Option::Some(h));
            &&& nh == h as int
            &&& nw * oh <= ow * (h as int) + oh
            &&& ow * (h as int) < nw * oh + oh
        }),
{
    lemma_scaled_dim_bounds(ow, h as int, oh);
}

/// Aspect-ratio preservation, width bound only: symmetric to the height
/// case.
pub proof fn lemma_aspect_ratio_width_bound(ow: int, oh: int, w: u32)
    requires
        1 <= ow <= u32::MAX,
        1 <= oh <= u32::MAX,
        1 <= w,
        oh * w <= u32::MAX * ow,
    ensures
        ({
            let (nw, nh) = plan_spec(ow, oh, Option::Some(w), Option::None);
            &&& nw == w as int
            &&& nh * ow <= oh * (w as int) + ow
            &&& oh * (w as int) < nh * ow + ow
        }),
{
    lemma_scaled_dim_bounds(oh, w as int, ow);
}

} // verus!

