//! Transform descriptors.
//!
//! Each render call rebuilds three transforms from scratch: a model
//! transform per sub-part, a fixed camera, and a perspective
//! projection.  The library states them exactly, over integer
//! thousandths (milli-units) and angle ticks; the host layer turns a
//! descriptor into a floating-point 4x4 matrix.  A model transform
//! always composes as translate times rotate times scale, in that
//! fixed order.

use crate::angle::{phase, phase_spec, EIGHTH_TURN, TURN};
use crate::ratio::{lemma_reduce_exact, lemma_reduce_scale_invariant, reduce, reduce_spec, Ratio};
use vstd::prelude::*;

verus! {

/// A vector of three coordinates in thousandths of a unit.
#[derive(Clone, Copy, Debug, PartialEq, Eq, Structural)]
pub struct Vec3Milli {
    pub x: i32,
    pub y: i32,
    pub z: i32,
}

/// Where a sub-part sits, before its own rotation is applied.
///
/// `Orbit` places the part on a horizontal circle around a centre
/// point: at phase `theta` the part sits at
/// `x = r * cos(theta)` (negated when `flip_x` is set),
/// `z = z_center + r * sin(theta)`, at fixed height `y`.
#[derive(Clone, Copy, Debug, PartialEq, Eq, Structural)]
pub enum Translation {
    Fixed(Vec3Milli),
    Orbit { radius_milli: i32, flip_x: bool, y_milli: i32, z_center_milli: i32 },
}

/// A model transform: translate times rotate times scale, in that
/// fixed order.  The rotation turns by `angle_ticks` around
/// `rotation_axis`.
#[derive(Clone, Copy, Debug, PartialEq, Eq, Structural)]
pub struct ModelTransform {
    pub translation: Translation,
    pub rotation_axis: Vec3Milli,
    pub angle_ticks: u64,
    pub scale: Vec3Milli,
}

/// The camera of a look-at view transform.
#[derive(Clone, Copy, Debug, PartialEq, Eq, Structural)]
pub struct Camera {
    pub position: Vec3Milli,
    pub target: Vec3Milli,
    pub up: Vec3Milli,
}

/// A perspective projection: exact aspect ratio, field of view in
/// angle ticks, near and far planes in thousandths.
#[derive(Clone, Copy, Debug, PartialEq, Eq, Structural)]
pub struct Projection {
    pub aspect: Ratio,
    pub fov_ticks: u64,
    pub near_milli: u32,
    pub far_milli: u32,
}

/// The one camera every shape uses: at the origin, looking down the
/// negative z axis, with the positive y axis up.
pub open spec fn view_spec() -> Camera {
    Camera {
        position: Vec3Milli { x: 0, y: 0, z: 0 },
        target: Vec3Milli { x: 0, y: 0, z: -1000i32 },
        up: Vec3Milli { x: 0, y: 1000, z: 0 },
    }
}

/// The view transform.  It is a constant: every call returns the
/// same camera, and nothing can mutate it between calls.
pub fn view_matrix() -> (c: Camera)
    ensures
        c == view_spec(),
{
    Camera {
        position: Vec3Milli { x: 0, y: 0, z: 0 },
        target: Vec3Milli { x: 0, y: 0, z: -1000 },
        up: Vec3Milli { x: 0, y: 1000, z: 0 },
    }
}

/// Any two values meeting the view transform's contract are equal:
/// the view transform is constant across calls.
pub proof fn lemma_view_matrix_constant(a: Camera, b: Camera)
    requires
        a == view_spec(),
        b == view_spec(),
    ensures
        a == b,
{
}

/// The projection for a canvas of `width` by `height` pixels: aspect
/// ratio `width / height` in lowest terms, an eighth of a turn
/// (pi/4) of field of view, near plane at 0.1, far plane at 100.
pub open spec fn projection_spec(width: u32, height: u32) -> Projection {
    Projection {
        aspect: reduce_spec(width, height),
        fov_ticks: EIGHTH_TURN,
        near_milli: 100,
        far_milli: 100_000,
    }
}

/// The perspective projection of a frame.  The height must be
/// positive: the aspect ratio divides by it.
pub fn projection_matrix(width: u32, height: u32) -> (p: Projection)
    requires
        height > 0,
    ensures
        p == projection_spec(width, height),
{
    Projection { aspect: reduce(width, height), fov_ticks: EIGHTH_TURN, near_milli: 100, far_milli: 100_000 }
}

/// The projection's aspect ratio equals `width / height` exactly:
/// cross-multiplication recovers the canvas proportions.
pub proof fn lemma_projection_aspect_exact(width: u32, height: u32)
    requires
        height > 0,
    ensures
        projection_spec(width, height).aspect.num * (height as int) == (width as int)
            * projection_spec(width, height).aspect.den,
        projection_spec(width, height).aspect.den > 0,
{
    lemma_reduce_exact(width, height);
}

/// Scaling the canvas does not change the projection:
/// `projection(k*w, k*h) == projection(w, h)` for any `k > 0`.
pub proof fn lemma_projection_scale_invariant(width: u32, height: u32, k: u32)
    requires
        height > 0,
        k > 0,
        k * width <= u32::MAX,
        k * height <= u32::MAX,
    ensures
        projection_spec((k * width) as u32, (k * height) as u32) == projection_spec(
            width,
            height,
        ),
{
    lemma_reduce_scale_invariant(width, height, k);
}

/// The torus model transform: two units back along z, rotated by the
/// shared phase around the diagonal y-z axis.
pub open spec fn torus_model_spec(dtheta: u64) -> ModelTransform {
    ModelTransform {
        translation: Translation::Fixed(Vec3Milli { x: 0, y: 0, z: -2000i32 }),
        rotation_axis: Vec3Milli { x: 0, y: 1000, z: 1000 },
        angle_ticks: phase_spec(dtheta) as u64,
        scale: Vec3Milli { x: 1000, y: 1000, z: 1000 },
    }
}

/// The torus model transform for an external offset of `dtheta` ticks.
pub fn model_matrix(dtheta: u64) -> (m: ModelTransform)
    ensures
        m == torus_model_spec(dtheta),
{
    ModelTransform {
        translation: Translation::Fixed(Vec3Milli { x: 0, y: 0, z: -2000 }),
        rotation_axis: Vec3Milli { x: 0, y: 1000, z: 1000 },
        angle_ticks: phase(dtheta),
        scale: Vec3Milli { x: 1000, y: 1000, z: 1000 },
    }
}

/// The three nested cubes, drawn in this order.
#[derive(Clone, Copy, Debug, PartialEq, Eq, Structural)]
pub enum CubePart {
    Outer,
    Middle,
    Inner,
}

/// The per-part cube model transform: all three sit three units back
/// along z and turn by the shared phase; the outer cube turns around
/// the y axis at full size, the middle and inner cubes around the
/// diagonal x-y axis at 0.6 and 0.3 scale.
pub open spec fn cube_model_spec(part: CubePart, dtheta: u64) -> ModelTransform {
    ModelTransform {
        translation: Translation::Fixed(Vec3Milli { x: 0, y: 0, z: -3000i32 }),
        rotation_axis: match part {
            CubePart::Outer => Vec3Milli { x: 0, y: 1000, z: 0 },
            CubePart::Middle => Vec3Milli { x: 1000, y: 1000, z: 0 },
            CubePart::Inner => Vec3Milli { x: 1000, y: 1000, z: 0 },
        },
        angle_ticks: phase_spec(dtheta) as u64,
        scale: match part {
            CubePart::Outer => Vec3Milli { x: 1000, y: 1000, z: 1000 },
            CubePart::Middle => Vec3Milli { x: 600, y: 600, z: 600 },
            CubePart::Inner => Vec3Milli { x: 300, y: 300, z: 300 },
        },
    }
}

/// The cube model transform for one sub-part.
pub fn cube_model_matrix(part: CubePart, dtheta: u64) -> (m: ModelTransform)
    ensures
        m == cube_model_spec(part, dtheta),
{
    let axis = match part {
        CubePart::Outer => Vec3Milli { x: 0, y: 1000, z: 0 },
        CubePart::Middle => Vec3Milli { x: 1000, y: 1000, z: 0 },
        CubePart::Inner => Vec3Milli { x: 1000, y: 1000, z: 0 },
    };
    let scale = match part {
        CubePart::Outer => Vec3Milli { x: 1000, y: 1000, z: 1000 },
        CubePart::Middle => Vec3Milli { x: 600, y: 600, z: 600 },
        CubePart::Inner => Vec3Milli { x: 300, y: 300, z: 300 },
    };
    ModelTransform {
        translation: Translation::Fixed(Vec3Milli { x: 0, y: 0, z: -3000 }),
        rotation_axis: axis,
        angle_ticks: phase(dtheta),
        scale,
    }
}

/// The wireframe colour of each cube: green outside, red in the
/// middle, blue inside.
pub open spec fn cube_part_color_spec(part: CubePart) -> Vec3Milli {
    match part {
        CubePart::Outer => Vec3Milli { x: 0, y: 1000, z: 0 },
        CubePart::Middle => Vec3Milli { x: 1000, y: 0, z: 0 },
        CubePart::Inner => Vec3Milli { x: 0, y: 0, z: 1000 },
    }
}

/// The wireframe colour of one cube sub-part.
pub fn cube_part_color(part: CubePart) -> (c: Vec3Milli)
    ensures
        c == cube_part_color_spec(part),
{
    match part {
        CubePart::Outer => Vec3Milli { x: 0, y: 1000, z: 0 },
        CubePart::Middle => Vec3Milli { x: 1000, y: 0, z: 0 },
        CubePart::Inner => Vec3Milli { x: 0, y: 0, z: 1000 },
    }
}

/// The three triforce triangles, drawn in this order.
#[derive(Clone, Copy, Debug, PartialEq, Eq, Structural)]
pub enum TriforcePart {
    Top,
    BottomLeft,
    BottomRight,
}

/// The per-part triforce model transform: every triangle turns by
/// the shared phase around the y axis; the top one sits half a unit
/// up, four units back; the bottom two orbit that centre half a unit
/// down, mirroring each other in x.
pub open spec fn triforce_model_spec(part: TriforcePart, dtheta: u64) -> ModelTransform {
    ModelTransform {
        translation: match part {
            TriforcePart::Top => Translation::Fixed(Vec3Milli { x: 0, y: 500, z: -4000i32 }),
            TriforcePart::BottomLeft => Translation::Orbit {
                radius_milli: 500,
                flip_x: false,
                y_milli: -500i32,
                z_center_milli: -4000i32,
            },
            TriforcePart::BottomRight => Translation::Orbit {
                radius_milli: 500,
                flip_x: true,
                y_milli: -500i32,
                z_center_milli: -4000i32,
            },
        },
        rotation_axis: Vec3Milli { x: 0, y: 1000, z: 0 },
        angle_ticks: phase_spec(dtheta) as u64,
        scale: Vec3Milli { x: 1000, y: 1000, z: 1000 },
    }
}

/// The triforce model transform for one triangle.
pub fn triforce_model_matrix(part: TriforcePart, dtheta: u64) -> (m: ModelTransform)
    ensures
        m == triforce_model_spec(part, dtheta),
{
    let translation = match part {
        TriforcePart::Top => Translation::Fixed(Vec3Milli { x: 0, y: 500, z: -4000 }),
        TriforcePart::BottomLeft => Translation::Orbit {
            radius_milli: 500,
            flip_x: false,
            y_milli: -500,
            z_center_milli: -4000,
        },
        TriforcePart::BottomRight => Translation::Orbit {
            radius_milli: 500,
            flip_x: true,
            y_milli: -500,
            z_center_milli: -4000,
        },
    };
    ModelTransform {
        translation,
        rotation_axis: Vec3Milli { x: 0, y: 1000, z: 0 },
        angle_ticks: phase(dtheta),
        scale: Vec3Milli { x: 1000, y: 1000, z: 1000 },
    }
}

/// A full revolution added to the offset leaves every model
/// transform unchanged: the rotation phase is periodic.
pub proof fn lemma_model_matrix_periodic(dtheta: u64)
    requires
        dtheta + TURN <= u64::MAX,
    ensures
        torus_model_spec((dtheta + TURN) as u64) == torus_model_spec(dtheta),
        forall|part: CubePart|
            cube_model_spec(part, (dtheta + TURN) as u64) == cube_model_spec(part, dtheta),
        forall|part: TriforcePart|
            triforce_model_spec(part, (dtheta + TURN) as u64) == triforce_model_spec(
                part,
                dtheta,
            ),
{
    crate::angle::lemma_phase_periodic(dtheta);
}

} // verus!
