//! ASCII-art rendering of raster images.
//!
//! An image is overlaid with a grid of equally sized rectangular patches.
//! Each patch is reduced to its average luminance, the luminance is sent
//! through a tone curve to a palette index, and the glyph at that index
//! becomes one character of the output.

pub mod error;
pub mod grid;
pub mod palette;
pub mod raster;
pub mod render;
pub mod tone;
