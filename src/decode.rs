//! From a network's raw output back to a matte at the input's geometry.
//!
//! The output tensor's shape is normalized to rank 4, its first plane taken
//! out, and, once its samples are bytes, the letterbox padding is cropped away
//! and the rest resampled to the original size.
use vstd::prelude::*;

use crate::error::PipelineError;
use crate::geometry::{letterbox, lemma_letterbox_spans_target, PaddingDescriptor};
use crate::raster::{crop_gray, cropped, lanczos3_gray, resize_gray, GrayRaster};

verus! {

/// The two output ranks a segmentation network may produce.
#[derive(Clone, Copy, Debug, PartialEq, Eq, Structural)]
pub enum OutputRank {
    /// `(batch, height, width)`: the channel axis left out.
    ThreeD,
    /// `(batch, channels, height, width)`.
    FourD,
}

/// An output shape brought to rank 4.
#[derive(Clone, Copy, Debug, PartialEq, Eq, Structural)]
pub struct CanonicalShape {
    pub batch: usize,
    pub channels: usize,
    pub height: usize,
    pub width: usize,
}

pub open spec fn rank_of(shape: Seq<usize>) -> Result<OutputRank, PipelineError> {
    if shape.len() == 3 {
        Ok(OutputRank::ThreeD)
    } else if shape.len() == 4 {
        Ok(OutputRank::FourD)
    } else {
        Err(PipelineError::UnexpectedOutputRank { rank: shape.len() as usize })
    }
}

/// `shape` as `(batch, channels, height, width)`; a rank-3 shape gets a
/// single channel.
pub open spec fn canonical_shape(shape: Seq<usize>) -> Result<CanonicalShape, PipelineError> {
    match rank_of(shape) {
        Ok(OutputRank::ThreeD) => Ok(
            CanonicalShape { batch: shape[0], channels: 1, height: shape[1], width: shape[2] },
        ),
        Ok(OutputRank::FourD) => Ok(
            CanonicalShape {
                batch: shape[0],
                channels: shape[1],
                height: shape[2],
                width: shape[3],
            },
        ),
        Err(e) => Err(e),
    }
}

pub open spec fn element_count(s: CanonicalShape) -> nat {
    (s.batch as nat) * (s.channels as nat) * (s.height as nat) * (s.width as nat)
}

/// The first channel of the first batch element of a row-major tensor of
/// shape `shape` holding `data`.
pub open spec fn first_plane_of<T>(shape: Seq<usize>, data: Seq<T>) -> Result<
    Seq<T>,
    PipelineError,
> {
    match canonical_shape(shape) {
        Err(e) => Err(e),
        Ok(s) => if s.batch == 0 || s.channels == 0 || element_count(s) != data.len() {
            Err(PipelineError::ShapeMismatch { elements: data.len() as usize })
        } else {
            Ok(data.subrange(0, (s.height as nat * s.width as nat) as int))
        },
    }
}

/// The padding window lies inside a `pw` x `ph` plane.
pub open spec fn window_fits(pd: PaddingDescriptor, pw: nat, ph: nat) -> bool {
    &&& pd.pad_x + pd.content_width <= pw
    &&& pd.pad_y + pd.content_height <= ph
}

/// Tells the output ranks apart.
pub fn output_rank(shape: &Vec<usize>) -> (r: Result<OutputRank, PipelineError>)
    ensures
        r == rank_of(shape@),
{
    if shape.len() == 3 {
        Ok(OutputRank::ThreeD)
    } else if shape.len() == 4 {
        Ok(OutputRank::FourD)
    } else {
        Err(PipelineError::UnexpectedOutputRank { rank: shape.len() })
    }
}

/// Brings an output shape of rank 3 or 4 to rank 4.
pub fn normalize_rank(shape: &Vec<usize>) -> (r: Result<CanonicalShape, PipelineError>)
    ensures
        r == canonical_shape(shape@),
{
    match output_rank(shape) {
        Ok(OutputRank::ThreeD) => Ok(
            CanonicalShape { batch: shape[0], channels: 1, height: shape[1], width: shape[2] },
        ),
        Ok(OutputRank::FourD) => Ok(
            CanonicalShape {
                batch: shape[0],
                channels: shape[1],
                height: shape[2],
                width: shape[3],
            },
        ),
        Err(e) => Err(e),
    }
}

/// The first plane of an output tensor given by its shape and its row-major
/// elements, with the rank-4 shape it was read under.
pub fn first_plane<T: Copy>(shape: &Vec<usize>, data: &Vec<T>) -> (r: Result<
    (CanonicalShape, Vec<T>),
    PipelineError,
>)
    ensures
        r is Ok <==> first_plane_of(shape@, data@) is Ok,
        r matches Ok((s, plane)) ==> canonical_shape(shape@) == Ok::<
            CanonicalShape,
            PipelineError,
        >(s) && first_plane_of(shape@, data@) == Ok::<Seq<T>, PipelineError>(plane@),
        r matches Err(e) ==> first_plane_of(shape@, data@) == Err::<Seq<T>, PipelineError>(e),
{
    let s = match normalize_rank(shape) {
        Ok(s) => s,
        Err(e) => {
            return Err(e);
        },
    };
    let mismatch = PipelineError::ShapeMismatch { elements: data.len() };
    if s.batch == 0 || s.channels == 0 {
        return Err(mismatch);
    }
    let count = match s.height.checked_mul(s.width) {
        Some(hw) => match hw.checked_mul(s.channels) {
            Some(hwc) => hwc.checked_mul(s.batch),
            None => None,
        },
        None => None,
    };
    proof {
        let (b, c, h, w) = (s.batch as nat, s.channels as nat, s.height as nat, s.width as nat);
        assert(b * c * h * w == h * w * c * b) by (nonlinear_arith);
        assert(h * w <= h * w * c && h * w * c <= h * w * c * b) by (nonlinear_arith)
            requires b >= 1, c >= 1;
    }
    match count {
        Some(n) => {
            if n != data.len() {
                return Err(mismatch);
            }
        },
        None => {
            return Err(mismatch);
        },
    }
    let plane_len: usize = s.height * s.width;
    let mut plane: Vec<T> = Vec::new();
    let mut i: usize = 0;
    while i < plane_len
        invariant
            plane_len <= data@.len(),
            i <= plane_len,
            plane@ == data@.subrange(0, i as int),
        decreases plane_len - i,
    {
        plane.push(data[i]);
        i = i + 1;
        assert(plane@ =~= data@.subrange(0, i as int));
    }
    Ok((s, plane))
}

/// Why a `ph` x `pw` plane of `len` bytes cannot give a matte for `pd`, if
/// it cannot.
pub open spec fn matte_error(len: nat, ph: nat, pw: nat, pd: PaddingDescriptor) -> Option<
    PipelineError,
> {
    if ph > u32::MAX || pw > u32::MAX || len != ph * pw {
        Some(PipelineError::ShapeMismatch { elements: len as usize })
    } else if !window_fits(pd, pw, ph) {
        Some(
            PipelineError::PaddingResolutionMismatch {
                plane_width: pw as usize,
                plane_height: ph as usize,
            },
        )
    } else {
        None
    }
}

/// Turns a byte plane of `plane_h` x `plane_w` samples into a matte of the
/// original `orig_w` x `orig_h` size: the letterbox padding recorded in `pd`
/// is cropped away and the content resampled (Lanczos3).
pub fn decode_matte(
    plane: &Vec<u8>,
    plane_h: usize,
    plane_w: usize,
    pd: PaddingDescriptor,
    orig_w: u32,
    orig_h: u32,
) -> (r: Result<GrayRaster, PipelineError>)
    requires
        (orig_w as nat) * (orig_h as nat) <= usize::MAX,
    ensures
        r is Err <==> matte_error(plane@.len(), plane_h as nat, plane_w as nat, pd) is Some,
        r matches Err(e) ==> matte_error(plane@.len(), plane_h as nat, plane_w as nat, pd) == Some(
            e,
        ),
        r matches Ok(m) ==> {
            &&& m.width == orig_w
            &&& m.height == orig_h
            &&& m.wf()
            &&& m.data@ == lanczos3_gray(
                pd.content_width as nat,
                pd.content_height as nat,
                cropped(
                    plane@,
                    plane_w as nat,
                    pd.pad_x as nat,
                    pd.pad_y as nat,
                    pd.content_width as nat,
                    pd.content_height as nat,
                ),
                orig_w as nat,
                orig_h as nat,
            )
        },
{
    let mismatch = PipelineError::ShapeMismatch { elements: plane.len() };
    if plane_h > u32::MAX as usize || plane_w > u32::MAX as usize {
        return Err(mismatch);
    }
    let n = match plane_h.checked_mul(plane_w) {
        Some(n) => n,
        None => {
            return Err(mismatch);
        },
    };
    if n != plane.len() {
        return Err(mismatch);
    }
    let w = plane_w as u32;
    let h = plane_h as u32;
    assert(plane@.len() == (w as nat) * (h as nat)) by (nonlinear_arith)
        requires plane@.len() == (plane_h as nat) * (plane_w as nat), w == plane_w, h == plane_h;
    if pd.pad_x as u64 + pd.content_width as u64 > w as u64 || pd.pad_y as u64
        + pd.content_height as u64 > h as u64 {
        return Err(
            PipelineError::PaddingResolutionMismatch { plane_width: plane_w, plane_height: plane_h },
        );
    }
    let content = crop_gray(
        plane,
        w,
        h,
        pd.pad_x,
        pd.pad_y,
        pd.content_width,
        pd.content_height,
    );
    let data = resize_gray(pd.content_width, pd.content_height, &content, orig_w, orig_h);
    Ok(GrayRaster { width: orig_w, height: orig_h, data })
}

/// A tensor of rank 3, `(1, h, w)`, and one of rank 4, `(1, 1, h, w)`, that
/// hold the same elements have the same first plane, so they decode to the
/// same matte.
pub proof fn lemma_rank_normalization<T>(h: usize, w: usize, data: Seq<T>)
    ensures
        first_plane_of(seq![1usize, h, w], data) == first_plane_of(seq![1usize, 1usize, h, w], data),
{
    assert(rank_of(seq![1usize, h, w]) == Ok::<OutputRank, PipelineError>(OutputRank::ThreeD));
    assert(rank_of(seq![1usize, 1usize, h, w]) == Ok::<OutputRank, PipelineError>(
        OutputRank::FourD,
    ));
}

/// The padding window recorded for a `w` x `h` image letterboxed onto a
/// `t` x `t` canvas fits a `t` x `t` output plane, so a plane of the target's
/// size always decodes, to a matte of the input's own `w` x `h` size.
pub proof fn lemma_round_trip_size(w: u32, h: u32, t: u32, pd: PaddingDescriptor)
    requires
        letterbox(w as nat, h as nat, t as nat, t as nat) == Some(pd),
    ensures
        window_fits(pd, t as nat, t as nat),
        matte_error((t as nat) * (t as nat), t as nat, t as nat, pd) is None,
{
    lemma_letterbox_spans_target(w, h, t, t, pd);
}

} // verus!
