//! Turns an equirectangular image into a rectilinear fly-around video by
//! planning one media-tool invocation per frame, bounding how many run at a
//! time, and planning the encoder invocation that stitches the frames.
pub mod config;
pub mod encode;
pub mod error;
pub mod frames;
pub mod scheduler;
pub mod session;
pub mod text;

pub use error::DragonflyError;
pub use encode::EncodeFramesDescriptor;
pub use frames::{ExtractFramesDescriptor, Interpolation};
