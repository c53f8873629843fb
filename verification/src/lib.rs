//! A verified model of a small immediate-mode 3D renderer.
//!
//! The library captures the decision logic of a per-frame
//! transform-and-draw pipeline for three parametric shapes (nested
//! cubes, a torus point cloud, a lit and textured triforce): exact
//! rotation phases, reduced-fraction projection descriptors, shader
//! program construction with leak-free failure handling, texture
//! filter selection, and per-frame draw command plans.  A thin host
//! layer performs the actual DOM and GPU calls and the floating-point
//! matrix evaluation that these descriptors dictate.

pub mod angle;
pub mod context;
pub mod frame;
pub mod geometry;
pub mod gl_types;
pub mod init;
pub mod ratio;
pub mod shader;
pub mod shapes;
pub mod texture;
pub mod transform;
