//! Core logic of two small WebGL demos: a flat-colored triangle drawn once,
//! and a textured cube driven by a per-frame animation loop.
//!
//! Everything the demos decide or compute is here: the interleaved vertex
//! data and its attribute layout, the cube's index buffer, the rotation state
//! that the animation derives from elapsed time, the outcome logic for shader
//! compilation and program linking, and the render-loop state machine. The
//! host side (canvas acquisition, the GL calls themselves, the frame
//! scheduler) lives outside this crate and exchanges plain values with it.

pub mod geometry;
pub mod pipeline;
pub mod render;
pub mod texture;
pub mod transform;
