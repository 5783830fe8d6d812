//! Letterbox geometry, planar tensor encoding and matte decoding for
//! foreground segmentation networks.
use vstd::prelude::*;

pub mod decode;
pub mod encode;
pub mod error;
pub mod geometry;
pub mod locate;
pub mod pipeline;
pub mod raster;

verus! {

} // verus!
