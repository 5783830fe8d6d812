//! Aspect-preserving scale and letterbox padding onto a fixed canvas.
use vstd::prelude::*;

use crate::error::PipelineError;
use crate::raster::{lanczos3_rgb, overlay_rgb, overlaid, resize_rgb, zeros, RgbRaster};

verus! {

/// Where the resized content sits on the padded canvas.
#[derive(Clone, Copy, Debug, PartialEq, Eq, Structural)]
pub struct PaddingDescriptor {
    pub pad_x: u32,
    pub pad_y: u32,
    pub content_width: u32,
    pub content_height: u32,
}

/// `a / b` rounded to the nearest integer, halves rounded up.
pub open spec fn round_div(a: nat, b: nat) -> nat
    recommends
        b > 0,
{
    a / b + if 2 * (a % b) >= b { 1nat } else { 0nat }
}

/// The resized size `(round(w * s), round(h * s))` for the scale
/// `s = min(tw / w, th / h)`, computed exactly.
pub open spec fn scaled_size(w: nat, h: nat, tw: nat, th: nat) -> (nat, nat) {
    if tw * h <= th * w {
        (tw, round_div(h * tw, w))
    } else {
        (round_div(w * th, h), th)
    }
}

/// The letterbox placement of a `w` x `h` image on a `tw` x `th` canvas, or
/// `None` where some size, given or resulting, is zero.
pub open spec fn letterbox(w: nat, h: nat, tw: nat, th: nat) -> Option<PaddingDescriptor> {
    if w == 0 || h == 0 || tw == 0 || th == 0 {
        None
    } else {
        let (nw, nh) = scaled_size(w, h, tw, th);
        if nw == 0 || nh == 0 {
            None
        } else {
            Some(PaddingDescriptor {
                pad_x: ((tw - nw) / 2) as u32,
                pad_y: ((th - nh) / 2) as u32,
                content_width: nw as u32,
                content_height: nh as u32,
            })
        }
    }
}

/// The black `tw` x `th` canvas with `img`, resampled to the content size of
/// `pd`, pasted at the padding offsets of `pd`.
pub open spec fn letterboxed(img: &RgbRaster, tw: u32, th: u32, pd: PaddingDescriptor) -> Seq<u8> {
    overlaid(
        zeros(3 * (tw as nat) * (th as nat)),
        tw as nat,
        lanczos3_rgb(
            img.width as nat,
            img.height as nat,
            img.data@,
            pd.content_width as nat,
            pd.content_height as nat,
        ),
        pd.content_width as nat,
        pd.content_height as nat,
        pd.pad_x as nat,
        pd.pad_y as nat,
    )
}

/// A rounded quotient never exceeds a bound that the exact quotient respects.
proof fn lemma_round_div_le(a: nat, b: nat, bound: nat)
    requires
        b > 0,
        a <= bound * b,
    ensures
        round_div(a, b) <= bound,
{
    assert(a / b <= bound) by (nonlinear_arith)
        requires b > 0, a <= bound * b;
    if a / b == bound {
        assert(a % b == 0) by (nonlinear_arith)
            requires b > 0, a <= bound * b, a / b == bound;
    }
}

proof fn lemma_scaled_fits(w: nat, h: nat, tw: nat, th: nat)
    requires
        w > 0,
        h > 0,
        tw > 0,
        th > 0,
    ensures
        scaled_size(w, h, tw, th).0 <= tw,
        scaled_size(w, h, tw, th).1 <= th,
{
    if tw * h <= th * w {
        assert(h * tw <= th * w) by (nonlinear_arith)
            requires tw * h <= th * w;
        lemma_round_div_le(h * tw, w, th);
    } else {
        assert(w * th <= tw * h) by (nonlinear_arith)
            requires !(tw * h <= th * w);
        lemma_round_div_le(w * th, h, tw);
    }
}

fn round_div_u64(a: u64, b: u64) -> (r: u64)
    requires
        b > 0,
        b <= u32::MAX,
    ensures
        r == round_div(a as nat, b as nat),
{
    let q = a / b;
    let m = a % b;
    if 2 * m >= b {
        assert(q < u64::MAX) by (nonlinear_arith)
            requires q == a / b, b > 1 || m == 0, a <= u64::MAX, b > 0, 2 * m >= b, m == a % b;
        q + 1
    } else {
        q
    }
}

/// The letterbox placement of a `width` x `height` image on a
/// `target_w` x `target_h` canvas; `None` where a size is zero or the
/// scaled content would have no area.
pub fn compute_padding(width: u32, height: u32, target_w: u32, target_h: u32) -> (r: Option<
    PaddingDescriptor,
>)
    ensures
        r == letterbox(width as nat, height as nat, target_w as nat, target_h as nat),
{
    if width == 0 || height == 0 || target_w == 0 || target_h == 0 {
        return None;
    }
    let w = width as u64;
    let h = height as u64;
    let tw = target_w as u64;
    let th = target_h as u64;
    assert(tw * h <= u64::MAX && th * w <= u64::MAX) by (nonlinear_arith)
        requires tw <= u32::MAX, h <= u32::MAX, th <= u32::MAX, w <= u32::MAX;
    let (nw, nh) = if tw * h <= th * w {
        (tw, round_div_u64(h * tw, w))
    } else {
        (round_div_u64(w * th, h), th)
    };
    proof {
        lemma_scaled_fits(w as nat, h as nat, tw as nat, th as nat);
    }
    if nw == 0 || nh == 0 {
        return None;
    }
    Some(PaddingDescriptor {
        pad_x: ((tw - nw) / 2) as u32,
        pad_y: ((th - nh) / 2) as u32,
        content_width: nw as u32,
        content_height: nh as u32,
    })
}

fn black_buffer(n: usize) -> (r: Vec<u8>)
    ensures
        r@ == zeros(n as nat),
{
    let mut v: Vec<u8> = Vec::new();
    let mut i: usize = 0;
    while i < n
        invariant
            i <= n,
            v@ == zeros(i as nat),
        decreases n - i,
    {
        v.push(0u8);
        i = i + 1;
        assert(v@ =~= zeros(i as nat));
    }
    v
}

/// Scales `img` to fit a `target_w` x `target_h` canvas with its aspect ratio
/// kept (Lanczos3), and centres it on a black canvas of that size; the
/// descriptor records where the content went.
pub fn resize_with_padding(img: &RgbRaster, target_w: u32, target_h: u32) -> (r: Result<
    (RgbRaster, PaddingDescriptor),
    PipelineError,
>)
    requires
        img.wf(),
        3 * (target_w as nat) * (target_h as nat) <= usize::MAX,
    ensures
        r is Ok <==> letterbox(
            img.width as nat,
            img.height as nat,
            target_w as nat,
            target_h as nat,
        ) is Some,
        r matches Ok((padded, pd)) ==> {
            &&& letterbox(img.width as nat, img.height as nat, target_w as nat, target_h as nat)
                == Some(pd)
            &&& padded.width == target_w
            &&& padded.height == target_h
            &&& padded.wf()
            &&& padded.data@ == letterboxed(img, target_w, target_h, pd)
        },
        r matches Err(e) ==> e == (PipelineError::InvalidImageDimensions {
            width: img.width,
            height: img.height,
            target_width: target_w,
            target_height: target_h,
        }),
{
    let pd = match compute_padding(img.width, img.height, target_w, target_h) {
        Some(pd) => pd,
        None => {
            return Err(
                PipelineError::InvalidImageDimensions {
                    width: img.width,
                    height: img.height,
                    target_width: target_w,
                    target_height: target_h,
                },
            );
        },
    };
    let nw = pd.content_width;
    let nh = pd.content_height;
    proof {
        lemma_scaled_fits(img.width as nat, img.height as nat, target_w as nat, target_h as nat);
        let (tw, th) = (target_w as nat, target_h as nat);
        assert(3 * (nw as nat) * (nh as nat) <= 3 * tw * th) by (nonlinear_arith)
            requires nw <= tw, nh <= th;
        assert(3 * tw <= 3 * tw * th) by (nonlinear_arith)
            requires th >= 1;
    }
    let resized = resize_rgb(img.width, img.height, &img.data, nw, nh);
    let n: usize = 3 * (target_w as usize) * (target_h as usize);
    let mut canvas = black_buffer(n);
    overlay_rgb(&mut canvas, target_w, target_h, &resized, nw, nh, pd.pad_x, pd.pad_y);
    Ok((RgbRaster { width: target_w, height: target_h, data: canvas }, pd))
}

/// A square image letterboxed onto a square canvas fills it: no padding.
pub proof fn lemma_square_has_no_padding(side: u32, t: u32)
    requires
        side > 0,
        t > 0,
    ensures
        letterbox(side as nat, side as nat, t as nat, t as nat) == Some(
            PaddingDescriptor { pad_x: 0, pad_y: 0, content_width: t, content_height: t },
        ),
{
    let (s, n) = (side as nat, t as nat);
    assert((s * n) / s == n && (s * n) % s == 0) by (nonlinear_arith)
        requires s > 0;
    assert(n * s <= n * s);
}

/// Padding on either side plus the content spans the canvas, short of one
/// pixel where the leftover is odd.
pub proof fn lemma_letterbox_spans_target(w: u32, h: u32, tw: u32, th: u32, pd: PaddingDescriptor)
    requires
        letterbox(w as nat, h as nat, tw as nat, th as nat) == Some(pd),
    ensures
        pd.content_width <= tw,
        pd.content_height <= th,
        2 * pd.pad_x + pd.content_width == tw || 2 * pd.pad_x + pd.content_width == tw - 1,
        2 * pd.pad_y + pd.content_height == th || 2 * pd.pad_y + pd.content_height == th - 1,
{
    lemma_scaled_fits(w as nat, h as nat, tw as nat, th as nat);
}

} // verus!
