//! Frame lifecycle and command recording for a fixed-triangle renderer.
//!
//! The library models, as plain verified data, everything the render core
//! decides each frame: the render-pass and pipeline configuration built at
//! startup, the secondary command buffer recorded per viewport size, the
//! primary command buffer recorded per frame, and the ordering discipline of
//! the GPU future chain. A thin unverified shell performs the actual device
//! calls by interpreting the transcripts this library produces.

pub mod commands;
pub mod render;
pub mod sync;
