//! Time alignment of a gyroscope recording with the motion seen in a video.

pub mod frames;
pub mod offsets;
pub mod orientation;
pub mod quaternion;
pub mod search;
pub mod shutter;
