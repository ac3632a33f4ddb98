//! A software rendering pipeline that turns a list of 3D triangles into a
//! glyph-based text frame: a projector maps triangle vertices through a
//! combined camera/projection transform, a rasterizer paints them into a
//! grayscale framebuffer with per-triangle depth resolution, and a quantizer
//! pools framebuffer blocks into characters of an ordered brightness ramp.
//!
//! All geometry is carried in signed 16.16 fixed-point integers, so every
//! stage is exact integer arithmetic with a precise contract.

pub mod barycentric;
pub mod config;
pub mod logger;
pub mod math;
pub mod pipeline;
pub mod projector;
pub mod quantizer;
pub mod rasterizer;
