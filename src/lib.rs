//! Scene, surface and input logic of an interactive GPU sphere tracer.
//!
//! Scalars that the GPU reads as `f32` are carried here as their IEEE-754
//! bit patterns (`u32`), so that the records uploaded to device memory can be
//! laid out and checked without floating-point arithmetic.

pub mod material;
pub mod sphere;
pub mod world;
pub mod rng;
pub mod surface;
pub mod control;
pub mod camera;
