//! Dimension arithmetic shared by every backend: ratio scaling for
//! `resize` and edge-corrected clamping for `trim`.

use vstd::prelude::*;

use crate::structs::Rect;

verus! {

/// A dimension scaled by `ratio` percent, truncated to a whole pixel
/// count.
pub open spec fn spec_scaled(dim: u32, ratio: u32) -> int {
    (dim * ratio) / 100
}

/// Scale one dimension by `ratio` percent, truncating.
pub fn scaled_dim(dim: u32, ratio: u32) -> (r: u64)
    ensures
        r == spec_scaled(dim, ratio),
{
    let d: u64 = dim as u64;
    let t: u64 = ratio as u64;
    proof {
        assert(d * t <= u32::MAX as int * u32::MAX as int) by (nonlinear_arith)
            requires
                d <= u32::MAX,
                t <= u32::MAX,
        ;
    }
    d * t / 100
}

/// Scaling by 100 percent leaves a dimension unchanged; a resize with
/// ratio 100 is therefore a no-op on the image geometry.
pub proof fn lemma_scale_by_100_is_identity(dim: u32)
    ensures
        spec_scaled(dim, 100) == dim,
{
}

/// The size that trimming an image of `w` by `h` pixels to `t` yields:
/// the requested size, clamped to the area available from the origin
/// of `t`; or nothing when the origin itself lies outside the image.
pub open spec fn spec_trim_size(w: u32, h: u32, t: Rect) -> Option<(u32, u32)> {
    if t.x < w && t.y < h {
        Some(
            (
                (if t.w <= w - t.x {
                    t.w as int
                } else {
                    w - t.x
                }) as u32,
                (if t.h <= h - t.y {
                    t.h as int
                } else {
                    h - t.y
                }) as u32,
            ),
        )
    } else {
        None
    }
}

/// Clamp a trim request against the image bounds.
pub fn trim_size(w: u32, h: u32, t: &Rect) -> (r: Option<(u32, u32)>)
    ensures
        r == spec_trim_size(w, h, *t),
{
    if t.x < w && t.y < h {
        let avail_w = w - t.x;
        let avail_h = h - t.y;
        let cw = if t.w <= avail_w {
            t.w
        } else {
            avail_w
        };
        let ch = if t.h <= avail_h {
            t.h
        } else {
            avail_h
        };
        Some((cw, ch))
    } else {
        None
    }
}

/// A trim rectangle that lies fully inside the image bounds is taken
/// verbatim: the result is exactly the requested width and height.
pub proof fn lemma_trim_fully_inside(w: u32, h: u32, t: Rect)
    requires
        t.x < w,
        t.y < h,
        t.x + t.w <= w,
        t.y + t.h <= h,
    ensures
        spec_trim_size(w, h, t) == Some((t.w, t.h)),
{
}

/// A trim rectangle whose origin lies outside the image bounds is
/// rejected outright.
pub proof fn lemma_trim_origin_outside(w: u32, h: u32, t: Rect)
    requires
        t.x >= w || t.y >= h,
    ensures
        spec_trim_size(w, h, t) is None,
{
}

} // verus!
