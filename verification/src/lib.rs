//! Verified core of a Direct3D 12 renderer for immediate-mode GUI draw data.
//!
//! The library models the renderer's bookkeeping — device-object lifecycle,
//! per-frame-in-flight buffer growth, font-atlas upload layout, and the
//! translation of a draw-command stream into an ordered list of GPU
//! operations — as verified code over plain values.  A thin unverified
//! host interprets the emitted operations against the real graphics API.

pub mod buffers;
pub mod context;
pub mod draw_data;
pub mod font;
pub mod ops;
pub mod pipeline;
pub mod renderer;
