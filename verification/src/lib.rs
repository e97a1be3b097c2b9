//! Core of a multi-window drawing application: viewport/clip-space geometry,
//! the per-window lifecycle state machine, the window multiplexer that owns the
//! live set of windows, and the weakly-cached GPU pipeline registry.

pub mod events;
pub mod geometry;
pub mod input;
pub mod multiplexer;
pub mod pipelines;
pub mod window;
