//! Core of a small real-time rendering backend: device selection,
//! presentable-image-chain negotiation, render-target construction, and the
//! per-tick acquire/record/submit/present protocol, all stated over plain
//! data models of what the GPU driver reports and verified against those
//! statements. The native driver and window-system calls live outside this
//! library and hand it plain values.

pub mod app;
pub mod backend;
pub mod device;
pub mod error;
pub mod io;
pub mod renderer;
pub mod swapchain;
pub mod targets;
