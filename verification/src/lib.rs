//! Swapchain lifecycle management and frame scheduling for a minimal
//! real-time renderer.
//!
//! The crate holds the decisions of a render loop as plain data: which
//! swapchain parameters to ask a surface for, which resources back a
//! swapchain, how completion tokens are chained from frame to frame, and how a
//! frame proceeds from one state to the next. The host performs the device
//! work that each directive names and reports what came of it.

pub mod completion;
pub mod geometry;
pub mod resources;
pub mod scheduler;
pub mod surface;
