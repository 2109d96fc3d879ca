//! Composites a raster canvas from a background, rescaled image overlays and
//! auto-sized text blocks.

pub mod compositor;
pub mod encode;
pub mod fit;
pub mod geometry;
pub mod layout;
pub mod overlay;
pub mod plan;
pub mod raster;
pub mod request;
pub mod rescale;
