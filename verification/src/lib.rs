//! A debug overlay for a GPU-rendered application: bitmap-font text layout,
//! rectangle batching and a rolling window of timing samples.
//!
//! Nothing here touches a graphics device. The overlay hands back batches of
//! vertices and indices; submitting them is left to the caller.

pub mod batch;
pub mod decimal;
pub mod font;
pub mod geometry;
pub mod overlay;
pub mod program;
pub mod sample_buffer;
pub mod text;
pub mod vertex;
