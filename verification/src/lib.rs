//! Batch texture preparation: manifest expansion, channel-format rules,
//! resize policy, channel packing and normal-map green inversion.

pub mod arm;
pub mod cli;
pub mod document;
pub mod format;
pub mod imaging;
pub mod manifest;
pub mod op;
pub mod pipeline;
pub mod raster;
pub mod resize;
pub mod task;
pub mod util;
