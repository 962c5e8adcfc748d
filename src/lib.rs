//! Split-view compositing and interaction engine for comparing two raster
//! images: a movable vertical boundary, panning, zoom with size policy, and
//! the draw plans that an outer frame loop hands to a renderer.
pub mod backdrop;
pub mod backend;
pub mod diff;
pub mod digits;
pub mod drag;
pub mod error;
pub mod geometry;
pub mod session;
pub mod split;
pub mod status;
pub mod window;
