//! Finds star-like point sources in a grayscale image and reports the center
//! and radius of each.
pub mod centroid;
mod collaborators;
pub mod detect;
pub mod raster;
pub mod threshold;

pub use centroid::{Point, RadiusWindow, StarCenter};
pub use detect::{Phase, StarDetect};
pub use raster::GrayImage;
pub use threshold::{DetectionError, ThresholdingExtensions};
