//! Live camera frames as text: luminance grids, nearest-neighbour resampling,
//! a character ramp, a mirrored text renderer and the capture loop's decisions.

pub mod ramp;
pub mod grid;
pub mod resample;
pub mod render;
pub mod capture;
