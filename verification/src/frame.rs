//! Frame command plans.
//!
//! A render call yields a plan: the exact sequence of drawing
//! commands of that frame, in order.  The host layer performs them
//! one by one against the real context, evaluating each matrix
//! expression in floating point.  The "currently active program" is
//! global context state, so every plan activates its own pipeline
//! before any draw of the frame.

use crate::gl_types::{PrimitiveMode, UniformName};
use crate::transform::{Camera, ModelTransform, Projection, Vec3Milli};
use vstd::prelude::*;

verus! {

/// A 4x4 matrix, described exactly; the host evaluates it in
/// floating point when uploading.
#[derive(Clone, Copy, Debug, PartialEq, Eq, Structural)]
pub enum Mat4Expr {
    /// A model transform.
    Model(ModelTransform),
    /// The look-at view transform of a camera.
    View(Camera),
    /// A perspective projection.
    Projection(Projection),
    /// View times model, in that order.
    ViewModel(Camera, ModelTransform),
    /// The normal matrix: inverse transpose of view times model.
    NormalOf(Camera, ModelTransform),
}

/// One drawing command of a frame plan.
#[derive(Clone, Copy, Debug, PartialEq, Eq, Structural)]
pub enum FrameCmd {
    /// Set the clear colour, in thousandths per channel.
    SetClearColor { red: i32, green: i32, blue: i32, alpha: i32 },
    /// Set the clear depth, in thousandths.
    SetClearDepth { depth: i32 },
    /// Clear the selected buffers.
    Clear { color: bool, depth: bool },
    /// Make the pipeline with this program handle the active one.
    Activate { program: u32 },
    /// Upload a matrix uniform.
    SetMat4 { name: UniformName, value: Mat4Expr },
    /// Upload a vector uniform, in thousandths per component.
    SetVec3 { name: UniformName, value: Vec3Milli },
    /// Upload an integer uniform.
    SetInt { name: UniformName, value: i32 },
    /// Select the active texture unit.
    SelectTextureUnit { unit: u32 },
    /// Bind the renderer's texture to the active unit.
    BindTexture,
    /// Draw `count` vertices starting at `first`.
    DrawArrays { mode: PrimitiveMode, first: i32, count: i32 },
    /// Flush the command stream; last command of every frame.
    Flush,
}

} // verus!
