//! Why one run of the pipeline stops.
use vstd::prelude::*;

verus! {

/// The structural faults that end a run of the pipeline.
#[derive(Clone, Copy, Debug, PartialEq, Eq, Structural)]
pub enum PipelineError {
    /// An image or target size, or the scaled content, has no area.
    InvalidImageDimensions { width: u32, height: u32, target_width: u32, target_height: u32 },
    /// The network's output is neither of rank 3 nor of rank 4.
    UnexpectedOutputRank { rank: usize },
    /// The output's element count does not match its shape, or it holds no plane.
    ShapeMismatch { elements: usize },
    /// The padding window does not lie inside the output plane.
    PaddingResolutionMismatch { plane_width: usize, plane_height: usize },
}

} // verus!
