//! Pixel buffers held as plain values, and the resampling, overlay and crop
//! operations of the `image` crate on them.
use vstd::prelude::*;

verus! {

/// An interleaved 8-bit RGB image: pixel `p` (row-major) has its channel `c`
/// at `data[3 * p + c]`.
#[derive(Clone, Debug)]
pub struct RgbRaster {
    pub width: u32,
    pub height: u32,
    pub data: Vec<u8>,
}

/// A single-channel 8-bit image, row-major.
#[derive(Clone, Debug)]
pub struct GrayRaster {
    pub width: u32,
    pub height: u32,
    pub data: Vec<u8>,
}

impl RgbRaster {
    pub open spec fn wf(&self) -> bool {
        self.data@.len() == 3 * (self.width as nat) * (self.height as nat)
    }
}

impl GrayRaster {
    pub open spec fn wf(&self) -> bool {
        self.data@.len() == (self.width as nat) * (self.height as nat)
    }
}

/// An all-black buffer of `n` bytes.
pub open spec fn zeros(n: nat) -> Seq<u8> {
    Seq::new(n, |i: int| 0u8)
}

/// `bottom` (an RGB buffer `bw` pixels wide) with the `tw` x `th` RGB buffer
/// `top` pasted so that its top-left pixel lands on `(x, y)`.
pub open spec fn overlaid(
    bottom: Seq<u8>,
    bw: nat,
    top: Seq<u8>,
    tw: nat,
    th: nat,
    x: nat,
    y: nat,
) -> Seq<u8> {
    Seq::new(
        bottom.len(),
        |i: int|
            {
                let px = (i / 3) % (bw as int);
                let py = (i / 3) / (bw as int);
                if x <= px < x + tw && y <= py < y + th {
                    top[((py - y) * tw + (px - x)) * 3 + i % 3]
                } else {
                    bottom[i]
                }
            },
    )
}

/// The `cw` x `ch` window at `(x, y)` of the single-channel buffer `src`,
/// `w` pixels wide.
pub open spec fn cropped(src: Seq<u8>, w: nat, x: nat, y: nat, cw: nat, ch: nat) -> Seq<u8> {
    Seq::new(cw * ch, |i: int| src[(y + i / (cw as int)) * w + x + i % (cw as int)])
}

/// What Lanczos3 resampling of a `w` x `h` RGB buffer to `nw` x `nh` yields.
pub uninterp spec fn lanczos3_rgb(w: nat, h: nat, data: Seq<u8>, nw: nat, nh: nat) -> Seq<u8>;

/// What Lanczos3 resampling of a `w` x `h` gray buffer to `nw` x `nh` yields.
pub uninterp spec fn lanczos3_gray(w: nat, h: nat, data: Seq<u8>, nw: nat, nh: nat) -> Seq<u8>;

/// Relies on `image::imageops::resize` with `FilterType::Lanczos3` over
/// `Rgb<u8>` pixels: an `nw` x `nh` buffer, a function of the arguments alone,
/// and a plain copy where the size does not change.
#[verifier::external_body]
pub(crate) fn resize_rgb(w: u32, h: u32, data: &Vec<u8>, nw: u32, nh: u32) -> (r: Vec<u8>)
    requires
        data@.len() == 3 * (w as nat) * (h as nat),
        3 * (nw as nat) * (nh as nat) <= usize::MAX,
    ensures
        r@ == lanczos3_rgb(w as nat, h as nat, data@, nw as nat, nh as nat),
        r@.len() == 3 * (nw as nat) * (nh as nat),
        nw == w && nh == h ==> r@ == data@,
{
    let img = image::RgbImage::from_raw(w, h, data.clone()).unwrap();
    image::imageops::resize(&img, nw, nh, image::imageops::FilterType::Lanczos3).into_raw()
}

/// Relies on `image::imageops::resize` with `FilterType::Lanczos3` over
/// `Luma<u8>` pixels: an `nw` x `nh` buffer, a function of the arguments alone,
/// and a plain copy where the size does not change.
#[verifier::external_body]
pub(crate) fn resize_gray(w: u32, h: u32, data: &Vec<u8>, nw: u32, nh: u32) -> (r: Vec<u8>)
    requires
        data@.len() == (w as nat) * (h as nat),
        (nw as nat) * (nh as nat) <= usize::MAX,
    ensures
        r@ == lanczos3_gray(w as nat, h as nat, data@, nw as nat, nh as nat),
        r@.len() == (nw as nat) * (nh as nat),
        nw == w && nh == h ==> r@ == data@,
{
    let img = image::GrayImage::from_raw(w, h, data.clone()).unwrap();
    image::imageops::resize(&img, nw, nh, image::imageops::FilterType::Lanczos3).into_raw()
}

/// Relies on `image::imageops::overlay` over `Rgb<u8>` pixels, whose blend
/// replaces the bottom pixel by the top one.
#[verifier::external_body]
pub(crate) fn overlay_rgb(
    bottom: &mut Vec<u8>,
    bw: u32,
    bh: u32,
    top: &Vec<u8>,
    tw: u32,
    th: u32,
    x: u32,
    y: u32,
)
    requires
        old(bottom)@.len() == 3 * (bw as nat) * (bh as nat),
        top@.len() == 3 * (tw as nat) * (th as nat),
        x + tw <= bw,
        y + th <= bh,
    ensures
        final(bottom)@ == overlaid(
            old(bottom)@,
            bw as nat,
            top@,
            tw as nat,
            th as nat,
            x as nat,
            y as nat,
        ),
{
    let mut canvas = image::RgbImage::from_raw(bw, bh, std::mem::take(bottom)).unwrap();
    let top_img = image::RgbImage::from_raw(tw, th, top.clone()).unwrap();
    image::imageops::overlay(&mut canvas, &top_img, x as i64, y as i64);
    *bottom = canvas.into_raw();
}

/// Relies on `image::imageops::crop_imm` over `Luma<u8>` pixels, copied out
/// with `to_image`: the window itself where it lies inside the image.
#[verifier::external_body]
pub(crate) fn crop_gray(src: &Vec<u8>, w: u32, h: u32, x: u32, y: u32, cw: u32, ch: u32) -> (r:
    Vec<u8>)
    requires
        src@.len() == (w as nat) * (h as nat),
        x + cw <= w,
        y + ch <= h,
    ensures
        r@ == cropped(src@, w as nat, x as nat, y as nat, cw as nat, ch as nat),
{
    let img = image::GrayImage::from_raw(w, h, src.clone()).unwrap();
    image::imageops::crop_imm(&img, x, y, cw, ch).to_image().into_raw()
}

} // verus!
