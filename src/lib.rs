//! Face cropping: turns detected face boxes into image-bounded crop rectangles,
//! cuts those crops out of an RGB image, and filters or resizes them.
pub mod config;
pub mod cropping;
pub mod geometry;
pub mod pipeline;
pub mod post_processing;
pub mod raster;
