//! A recursive Whitted-style ray tracer over exact fixed-point arithmetic.
//!
//! Scalars are integers counted in millionths (`fixed::SCALE` units to 1.0),
//! so every arithmetic step has an exact mathematical specification and the
//! whole tracing engine is verified: geometric intersection queries, the
//! light model, scene traversal, camera-ray generation and the bounded
//! recursive shading function.

pub mod color;
pub mod fixed;
pub mod render;
pub mod scene;
pub mod space;
