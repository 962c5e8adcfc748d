//! Failures of the view engine.
use vstd::prelude::*;

verus! {

/// Which bound of the size policy a raster size breaks.
#[derive(Clone, Copy, Debug, PartialEq, Eq, Structural)]
pub enum SizeBreach {
    BelowMinimum,
    AboveMaximum,
}

#[derive(Clone, Copy, Debug, PartialEq, Eq, Structural)]
pub enum ViewError {
    /// The rasterization backend could not report the document's size.
    SizeUnavailable,
    /// The rasterization backend failed to produce a pixel buffer.
    RenderFailure,
    /// A raster size lies outside the accepted bounds.
    SizeOutOfPolicy(SizeBreach),
    /// A coordinate of a draw request cannot be represented.
    GeometryOverflow,
}

} // verus!
