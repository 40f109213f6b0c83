//! Integer core of a stochastic ray-tracing renderer.
//!
//! The modules here hold the parts of the renderer whose behaviour is exact
//! integer and byte arithmetic: the deterministic random sources that drive
//! the Monte-Carlo sampling, the render configuration with its pixel-buffer
//! layout, the random axis choice used when building a bounding-volume
//! hierarchy, and the image-file header encoding.  The floating-point
//! geometry and shading that consume these values live with the caller.

pub mod axis;
pub mod pcg32;
pub mod rand;
pub mod random;
pub mod render;
pub mod tiff;
