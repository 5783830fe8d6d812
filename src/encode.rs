//! Planar (channel-major) tensor encoding of an RGB raster.
//!
//! Each sample is kept as the exact fraction that the network's input
//! normalization prescribes; the caller turns it into the tensor's number type.
use vstd::prelude::*;

use crate::raster::RgbRaster;

verus! {

/// How byte samples are mapped to network inputs.
#[derive(Clone, Copy, Debug, PartialEq, Eq, Structural)]
pub enum NormalizationScheme {
    /// `(v - 127.5) / 127.5`, about `[-1, 1]`.
    SymmetricUnit,
    /// `(v / 255 - mean[c]) / std[c]` with the ImageNet channel statistics.
    ImageNetStats,
}

/// The value `numerator / denominator`.
#[derive(Clone, Copy, Debug, PartialEq, Eq, Structural)]
pub struct Fraction {
    pub numerator: i32,
    pub denominator: u32,
}

/// The ImageNet channel mean, in thousandths.
pub open spec fn mean_milli(c: int) -> int {
    if c == 0 {
        485
    } else if c == 1 {
        456
    } else {
        406
    }
}

/// The ImageNet channel standard deviation, in thousandths.
pub open spec fn std_milli(c: int) -> int {
    if c == 0 {
        229
    } else if c == 1 {
        224
    } else {
        225
    }
}

/// Numerator of the normalized value of byte `v` on channel `c`.
pub open spec fn norm_numerator(scheme: NormalizationScheme, c: int, v: int) -> int {
    match scheme {
        NormalizationScheme::SymmetricUnit => 2 * v - 255,
        NormalizationScheme::ImageNetStats => 1000 * v - 255 * mean_milli(c),
    }
}

/// Denominator of the normalized value of byte `v` on channel `c`.
pub open spec fn norm_denominator(scheme: NormalizationScheme, c: int) -> int {
    match scheme {
        NormalizationScheme::SymmetricUnit => 255,
        NormalizationScheme::ImageNetStats => 255 * std_milli(c),
    }
}

/// `f` is the normalized value of byte `v` on channel `c`.
pub open spec fn encodes(f: Fraction, scheme: NormalizationScheme, c: int, v: u8) -> bool {
    &&& f.numerator == norm_numerator(scheme, c, v as int)
    &&& f.denominator == norm_denominator(scheme, c)
}

/// The byte that element `j` of the planar encoding of `data` reads, for
/// planes of `plane` pixels: channel `j / plane` of pixel `j % plane`.
pub open spec fn planar_source(data: Seq<u8>, plane: nat, j: int) -> u8 {
    data[3 * (j % (plane as int)) + j / (plane as int)]
}

/// `out` is the channel-major encoding of `img` under `scheme`: element `j`
/// is channel `j / (w * h)` of pixel `j % (w * h)`, normalized.
pub open spec fn planar_encoding(
    out: Seq<Fraction>,
    img: &RgbRaster,
    scheme: NormalizationScheme,
) -> bool {
    let plane = img.width as nat * img.height as nat;
    &&& out.len() == img.data@.len()
    &&& forall|j: int|
        0 <= j < out.len() ==> encodes(
            #[trigger] out[j],
            scheme,
            j / plane as int,
            planar_source(img.data@, plane, j),
        )
}

/// The normalized value of byte `v` on channel `channel`.
pub fn normalize_sample(scheme: NormalizationScheme, channel: usize, v: u8) -> (r: Fraction)
    requires
        channel < 3,
    ensures
        encodes(r, scheme, channel as int, v),
{
    match scheme {
        NormalizationScheme::SymmetricUnit => Fraction {
            numerator: 2 * (v as i32) - 255,
            denominator: 255,
        },
        NormalizationScheme::ImageNetStats => {
            let (mean, std): (i32, u32) = if channel == 0 {
                (485, 229)
            } else if channel == 1 {
                (456, 224)
            } else {
                (406, 225)
            };
            Fraction { numerator: 1000 * (v as i32) - 255 * mean, denominator: 255 * std }
        },
    }
}

/// Encodes `img` as a `(1, 3, height, width)` tensor in channel-major order:
/// all of channel 0 row by row, then channel 1, then channel 2.
pub fn encode_nchw(img: &RgbRaster, scheme: NormalizationScheme) -> (r: Vec<Fraction>)
    requires
        img.wf(),
    ensures
        planar_encoding(r@, img, scheme),
{
    let n: usize = img.data.len();
    proof {
        let (w, h) = (img.width as nat, img.height as nat);
        assert(w * h <= 3 * w * h) by (nonlinear_arith);
    }
    let plane: usize = (img.width as usize) * (img.height as usize);
    assert(n == 3 * plane) by (nonlinear_arith)
        requires n == 3 * (img.width as nat) * (img.height as nat), plane == (img.width as nat) * (img.height as nat);
    let mut out: Vec<Fraction> = Vec::new();
    let mut j: usize = 0;
    while j < n
        invariant
            n == img.data@.len(),
            n == 3 * plane,
            plane == img.width as nat * img.height as nat,
            j <= n,
            out@.len() == j,
            forall|k: int|
                0 <= k < j ==> encodes(
                    #[trigger] out@[k],
                    scheme,
                    k / plane as int,
                    planar_source(img.data@, plane as nat, k),
                ),
        decreases n - j,
    {
        assert(plane > 0);
        let c: usize = j / plane;
        let p: usize = j % plane;
        proof {
            assert(c < 3 && 3 * p + c < n) by (nonlinear_arith)
                requires j < n, n == 3 * plane, plane > 0, c == j / plane, p == j % plane;
        }
        out.push(normalize_sample(scheme, c, img.data[3 * p + c]));
        j = j + 1;
    }
    out
}

/// The MODNet input encoding: symmetric `[-1, 1]` normalization.
pub fn preprocess_modnet_nchw(img: &RgbRaster) -> (r: Vec<Fraction>)
    requires
        img.wf(),
    ensures
        planar_encoding(r@, img, NormalizationScheme::SymmetricUnit),
{
    encode_nchw(img, NormalizationScheme::SymmetricUnit)
}

/// The U²-Net input encoding: ImageNet mean and deviation per channel.
pub fn preprocess_u2net_nchw(img: &RgbRaster) -> (r: Vec<Fraction>)
    requires
        img.wf(),
    ensures
        planar_encoding(r@, img, NormalizationScheme::ImageNetStats),
{
    encode_nchw(img, NormalizationScheme::ImageNetStats)
}

/// Symmetric normalization sends byte 0 to exactly -1 and byte 255 to
/// exactly +1; ImageNet normalization sends the byte nearest to a channel's
/// mean to within 0.01 of zero.
pub proof fn lemma_normalization_anchors(c: int)
    requires
        0 <= c < 3,
    ensures
        norm_numerator(NormalizationScheme::SymmetricUnit, c, 0) == -norm_denominator(
            NormalizationScheme::SymmetricUnit,
            c,
        ),
        norm_numerator(NormalizationScheme::SymmetricUnit, c, 255) == norm_denominator(
            NormalizationScheme::SymmetricUnit,
            c,
        ),
        ({
            let v = crate::geometry::round_div((255 * mean_milli(c)) as nat, 1000);
            let num = norm_numerator(NormalizationScheme::ImageNetStats, c, v as int);
            let den = norm_denominator(NormalizationScheme::ImageNetStats, c);
            &&& v <= 255
            &&& den > 0
            &&& -den < 100 * num < den
        }),
{
    assert(crate::geometry::round_div(123675, 1000) == 124);
    assert(crate::geometry::round_div(116280, 1000) == 116);
    assert(crate::geometry::round_div(103530, 1000) == 104);
}

} // verus!
