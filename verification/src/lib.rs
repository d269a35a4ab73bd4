//! Output dispatch for a headless compositor: pixel conversion, pipeline
//! planning, framebuffer updates and the frame pump, as verified logic that
//! the surrounding program drives.

pub mod address;
pub mod backend;
pub mod builder;
pub mod convert;
pub mod encoder;
pub mod framebuffer;
pub mod pipeline;
pub mod pump;
pub mod text;
pub mod video;
