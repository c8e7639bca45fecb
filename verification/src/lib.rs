//! A verified text-to-raster rendering pipeline: it turns a string (typically
//! a decimal Unix timestamp) and a requested canvas width into a centered,
//! anti-aliased black-on-white RGBA canvas, and encodes it as PNG or JPEG.
//!
//! Font rasterization and image container encoding are performed by outside
//! crates behind trusted wrappers; the geometry, bounding-box, centering and
//! compositing logic is verified.

pub mod geometry;
pub mod glyphs;
pub mod canvas;
pub mod font;
pub mod render;
pub mod text;
pub mod encode;
pub mod routes;
