//! Blends two raster images into one by taking whole RGBA pixels from each
//! source in turn, after bringing both to a common resolution.

pub mod merge;
pub mod raster;
pub mod output;
pub mod args;
pub mod pipeline;
