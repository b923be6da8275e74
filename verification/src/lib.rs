//! Recording agent core: session control, mixing and segmentation of two
//! audio streams, and the policy by which finished segments are shipped.

pub mod config;
pub mod device;
pub mod downmix;
pub mod engine;
pub mod errors;
pub mod level;
pub mod mixer;
pub mod state;
pub mod text;
pub mod upload;
pub mod version;
pub mod wav;
