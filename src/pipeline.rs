//! The two supported network families and the input side of their pipeline.
use vstd::prelude::*;

use crate::encode::{encode_nchw, planar_encoding, Fraction, NormalizationScheme};
use crate::error::PipelineError;
use crate::geometry::{letterbox, letterboxed, resize_with_padding, PaddingDescriptor};
use crate::raster::RgbRaster;

verus! {

/// A network family: its square input side and its input normalization.
#[derive(Clone, Copy, Debug, PartialEq, Eq, Structural)]
pub enum ModelFamily {
    /// MODNet, for human subjects.
    Modnet,
    /// U²-Net, for general salient objects.
    U2net,
}

pub open spec fn family_side(family: ModelFamily) -> u32 {
    match family {
        ModelFamily::Modnet => 512,
        ModelFamily::U2net => 320,
    }
}

pub open spec fn family_scheme(family: ModelFamily) -> NormalizationScheme {
    match family {
        ModelFamily::Modnet => NormalizationScheme::SymmetricUnit,
        ModelFamily::U2net => NormalizationScheme::ImageNetStats,
    }
}

/// The side of the square input the family's network takes.
pub fn target_side(family: ModelFamily) -> (r: u32)
    ensures
        r == family_side(family),
{
    match family {
        ModelFamily::Modnet => 512,
        ModelFamily::U2net => 320,
    }
}

/// The normalization the family's network expects.
pub fn input_scheme(family: ModelFamily) -> (r: NormalizationScheme)
    ensures
        r == family_scheme(family),
{
    match family {
        ModelFamily::Modnet => NormalizationScheme::SymmetricUnit,
        ModelFamily::U2net => NormalizationScheme::ImageNetStats,
    }
}

/// A network input ready to run: the letterboxed image, where its content
/// lies, and its channel-major encoding.
#[derive(Clone, Debug)]
pub struct PreparedInput {
    pub padded: RgbRaster,
    pub padding: PaddingDescriptor,
    pub tensor: Vec<Fraction>,
}

/// Letterboxes `img` onto the family's square input and encodes it.
pub fn prepare_input(img: &RgbRaster, family: ModelFamily) -> (r: Result<
    PreparedInput,
    PipelineError,
>)
    requires
        img.wf(),
    ensures
        r is Ok <==> letterbox(
            img.width as nat,
            img.height as nat,
            family_side(family) as nat,
            family_side(family) as nat,
        ) is Some,
        r matches Ok(p) ==> {
            let t = family_side(family);
            &&& letterbox(img.width as nat, img.height as nat, t as nat, t as nat) == Some(
                p.padding,
            )
            &&& p.padded.width == t
            &&& p.padded.height == t
            &&& p.padded.wf()
            &&& p.padded.data@ == letterboxed(img, t, t, p.padding)
            &&& planar_encoding(p.tensor@, &p.padded, family_scheme(family))
        },
        r matches Err(e) ==> e == (PipelineError::InvalidImageDimensions {
            width: img.width,
            height: img.height,
            target_width: family_side(family),
            target_height: family_side(family),
        }),
{
    let side = target_side(family);
    match resize_with_padding(img, side, side) {
        Ok((padded, padding)) => {
            let tensor = encode_nchw(&padded, input_scheme(family));
            Ok(PreparedInput { padded, padding, tensor })
        },
        Err(e) => Err(e),
    }
}

} // verus!
