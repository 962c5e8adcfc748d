//! The choice of rasterization engine.
use vstd::prelude::*;

verus! {

/// The engine that renders both documents; chosen once, before a session
/// starts, and never switched during it.
#[derive(Clone, Copy, Debug, PartialEq, Eq, PartialOrd, Ord)]
pub enum SvgBackend {
    RsvgWithCairo,
    UsvgWithSkia,
}

} // verus!
