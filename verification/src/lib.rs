//! A software triangle-rasterization pipeline over fixed-point arithmetic.
//!
//! The crate mirrors a hardware graphics pipeline's programmable stages:
//! an attribute store exposes vertex data to shader stages, a draw call
//! partitions a vertex stream into triangles, shades each vertex, performs
//! the perspective divide and viewport transform, rasterizes each triangle
//! with an edge-function inside test, shades every covered pixel and packs
//! the resulting color into a caller-owned framebuffer.
//!
//! All coordinates and colors are fixed-point numbers: an `i64` holding a
//! real value scaled by 2^16 (see [`fixed`]). This keeps every stage exact
//! and deterministic, so the whole pipeline carries functional contracts.

pub mod fixed;
pub mod linalg;
pub mod bind_group;
pub mod shader;
pub mod raster;
pub mod pipeline;
