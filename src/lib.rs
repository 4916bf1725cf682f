//! Georeferencing of raster images: the tags that place a raster in model
//! space, validated into one of three shapes.

pub mod error;
pub mod transform;

pub use crate::error::TagError;
pub use crate::transform::CoordinateTransform;
