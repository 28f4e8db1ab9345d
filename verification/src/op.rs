//! Operations that rewrite the channels of image buffers.

pub mod flip;
pub mod pack;
