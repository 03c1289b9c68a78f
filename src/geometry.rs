//! Placement of a source image inside a destination viewport.

use vstd::prelude::*;

verus! {

/// A placement within the viewport: top-left corner and size in pixels.
#[derive(Clone, Copy, Debug, PartialEq, Eq, Structural)]
pub struct Rect {
    pub x: i32,
    pub y: i32,
    pub width: u32,
    pub height: u32,
}

/// The rectangle of the given position and size.
pub open spec fn rect(x: int, y: int, width: int, height: int) -> Rect {
    Rect { x: x as i32, y: y as i32, width: width as u32, height: height as u32 }
}

/// Both source dimensions are strictly smaller than the destination's.
pub open spec fn fits_entirely(sw: int, sh: int, dw: int, dh: int) -> bool {
    sw < dw && sh < dh
}

/// The source's aspect ratio `sw / sh` is strictly greater than `dw / dh`.
pub open spec fn wider_than(sw: int, sh: int, dw: int, dh: int) -> bool {
    sw * dh > dw * sh
}

/// Full-width placement, centred vertically.
pub open spec fn scaled_to_width(sw: int, sh: int, dw: int, dh: int) -> Rect {
    let h = sh * dw / sw;
    rect(0, (dh - h) / 2, dw, h)
}

/// Full-height placement, centred horizontally.
pub open spec fn scaled_to_height(sw: int, sh: int, dw: int, dh: int) -> Rect {
    let w = sw * dh / sh;
    rect((dw - w) / 2, 0, w, dh)
}

/// The placement of a `sw` x `sh` image in a `dw` x `dh` viewport: unscaled and
/// centred when it fits, else scaled to full width (when relatively wider) or
/// full height, keeping its aspect ratio and centred in the other dimension.
pub open spec fn fit(sw: int, sh: int, dw: int, dh: int) -> Rect {
    if fits_entirely(sw, sh, dw, dh) {
        rect((dw - sw) / 2, (dh - sh) / 2, sw, sh)
    } else if wider_than(sw, sh, dw, dh) {
        scaled_to_width(sw, sh, dw, dh)
    } else {
        scaled_to_height(sw, sh, dw, dh)
    }
}

/// The product of two 32-bit values fits in 64 bits.
proof fn lemma_mul_fits_u64(a: u32, b: u32)
    ensures
        (a as int) * (b as int) <= u64::MAX,
{
    assert((a as int) * (b as int) <= (u32::MAX as int) * (u32::MAX as int)) by (nonlinear_arith)
        requires
            a <= u32::MAX,
            b <= u32::MAX,
            a >= 0,
            b >= 0,
    ;
}

/// Centred, unscaled placement of an image smaller than the viewport.
pub fn full_rect(src_x: u32, src_y: u32, dst_x: u32, dst_y: u32) -> (r: Rect)
    requires
        src_x < dst_x,
        src_y < dst_y,
    ensures
        r == rect((dst_x - src_x) / 2, (dst_y - src_y) / 2, src_x as int, src_y as int),
{
    let y: i32 = ((dst_y - src_y) / 2) as i32;
    let x: i32 = ((dst_x - src_x) / 2) as i32;
    Rect { x, y, width: src_x, height: src_y }
}

/// Full-width placement of an image relatively wider than the viewport,
/// centred vertically.
pub fn fit_x_rect(src_x: u32, src_y: u32, dst_x: u32, dst_y: u32) -> (r: Rect)
    requires
        src_x > 0,
        src_y > 0,
        dst_y > 0,
        wider_than(src_x as int, src_y as int, dst_x as int, dst_y as int),
    ensures
        r == scaled_to_width(src_x as int, src_y as int, dst_x as int, dst_y as int),
        r.height < dst_y,
{
    proof {
        lemma_mul_fits_u64(src_y, dst_x);
    }
    let prod: u64 = src_y as u64 * dst_x as u64;
    let h64: u64 = prod / src_x as u64;
    proof {
        assert(h64 < dst_y) by (nonlinear_arith)
            requires
                h64 == prod / (src_x as u64),
                prod == src_y * dst_x,
                src_x * dst_y > dst_x * src_y,
                src_x > 0,
        {
            assert(h64 * src_x <= prod);
            assert(h64 * src_x < dst_y * src_x);
        }
    }
    let height: u32 = h64 as u32;
    let y: i32 = ((dst_y - height) / 2) as i32;
    Rect { x: 0, y, width: dst_x, height }
}

/// Full-height placement of an image relatively taller than the viewport (or
/// of the same aspect ratio), centred horizontally.
pub fn fit_y_rect(src_x: u32, src_y: u32, dst_x: u32, dst_y: u32) -> (r: Rect)
    requires
        src_x > 0,
        src_y > 0,
        !wider_than(src_x as int, src_y as int, dst_x as int, dst_y as int),
    ensures
        r == scaled_to_height(src_x as int, src_y as int, dst_x as int, dst_y as int),
        r.width <= dst_x,
{
    proof {
        lemma_mul_fits_u64(src_x, dst_y);
    }
    let prod: u64 = src_x as u64 * dst_y as u64;
    let w64: u64 = prod / src_y as u64;
    proof {
        assert(w64 <= dst_x) by (nonlinear_arith)
            requires
                w64 == prod / (src_y as u64),
                prod == src_x * dst_y,
                src_x * dst_y <= dst_x * src_y,
                src_y > 0,
        {
            assert(w64 * src_y <= prod);
            assert(w64 * src_y <= dst_x * src_y);
        }
    }
    let width: u32 = w64 as u32;
    let x: i32 = ((dst_x - width) / 2) as i32;
    Rect { x, y: 0, width, height: dst_y }
}

/// Where to draw a `src_x` x `src_y` image in a `dst_x` x `dst_y` viewport.
pub fn make_dst(src_x: u32, src_y: u32, dst_x: u32, dst_y: u32) -> (r: Rect)
    requires
        src_x > 0,
        src_y > 0,
        dst_x > 0,
        dst_y > 0,
    ensures
        r == fit(src_x as int, src_y as int, dst_x as int, dst_y as int),
{
    if src_x < dst_x && src_y < dst_y {
        return full_rect(src_x, src_y, dst_x, dst_y);
    }
    proof {
        lemma_mul_fits_u64(src_x, dst_y);
        lemma_mul_fits_u64(dst_x, src_y);
    }
    if src_x as u64 * dst_y as u64 > dst_x as u64 * src_y as u64 {
        return fit_x_rect(src_x, src_y, dst_x, dst_y);
    }
    fit_y_rect(src_x, src_y, dst_x, dst_y)
}

/// The horizontal offset of `r` from the centre of a viewport `dw` wide, doubled.
pub open spec fn off_centre_x(r: Rect, dw: int) -> int {
    dw - 2 * r.x - r.width
}

/// The vertical offset of `r` from the centre of a viewport `dh` high, doubled.
pub open spec fn off_centre_y(r: Rect, dh: int) -> int {
    dh - 2 * r.y - r.height
}

/// The fit rectangle of positive dimensions lies inside the viewport; it
/// spans the viewport in the dimension it was scaled to, and is centred to
/// within one pixel in every dimension it does not span. An image that fits
/// keeps its size and is centred in both dimensions.
pub proof fn lemma_fit_within_viewport(sw: u32, sh: u32, dw: u32, dh: u32)
    requires
        sw > 0,
        sh > 0,
        dw > 0,
        dh > 0,
    ensures
        ({
            let r = fit(sw as int, sh as int, dw as int, dh as int);
            &&& 0 <= r.x
            &&& 0 <= r.y
            &&& r.x + r.width <= dw
            &&& r.y + r.height <= dh
            &&& fits_entirely(sw as int, sh as int, dw as int, dh as int) ==> {
                &&& r.width == sw && r.height == sh
                &&& 0 <= off_centre_x(r, dw as int) <= 1
                &&& 0 <= off_centre_y(r, dh as int) <= 1
            }
            &&& !fits_entirely(sw as int, sh as int, dw as int, dh as int) && wider_than(
                sw as int,
                sh as int,
                dw as int,
                dh as int,
            ) ==> {
                &&& r.x == 0 && r.width == dw
                &&& 0 <= off_centre_y(r, dh as int) <= 1
            }
            &&& !fits_entirely(sw as int, sh as int, dw as int, dh as int) && !wider_than(
                sw as int,
                sh as int,
                dw as int,
                dh as int,
            ) ==> {
                &&& r.y == 0 && r.height == dh
                &&& 0 <= off_centre_x(r, dw as int) <= 1
            }
        }),
{
    let (a, b, c, d) = (sw as int, sh as int, dw as int, dh as int);
    if fits_entirely(a, b, c, d) {
    } else if wider_than(a, b, c, d) {
        let h = b * c / a;
        assert(0 <= h < d) by (nonlinear_arith)
            requires
                h == b * c / a,
                a * d > c * b,
                a > 0,
                b > 0,
                c > 0,
        {
            assert(h * a <= b * c);
            assert(h * a < d * a);
        }
    } else {
        let w = a * d / b;
        assert(0 <= w <= c) by (nonlinear_arith)
            requires
                w == a * d / b,
                a * d <= c * b,
                a > 0,
                b > 0,
                d > 0,
        {
            assert(w * b <= a * d);
            assert(w * b <= c * b);
        }
    }
}

} // verus!
