//! Transform descriptors: projection aspect ratios, the constant
//! view, and rotation-phase periodicity.

use parametric_surfaces::angle::{phase, EIGHTH_TURN, TURN};
use parametric_surfaces::ratio::{gcd_u32, reduce, Ratio};
use parametric_surfaces::transform::{
    cube_model_matrix, cube_part_color, model_matrix, projection_matrix, triforce_model_matrix,
    view_matrix, CubePart, Translation, TriforcePart, Vec3Milli,
};

#[test]
fn phase_adds_an_eighth_turn() {
    assert_eq!(phase(0), EIGHTH_TURN);
    assert_eq!(phase(1), EIGHTH_TURN + 1);
}

#[test]
fn phase_wraps_below_one_turn() {
    assert!(phase(u64::MAX) < TURN);
    assert_eq!(phase(TURN - EIGHTH_TURN), 0);
}

#[test]
fn phase_is_periodic_in_one_turn() {
    assert_eq!(phase(12345), phase(12345 + TURN));
    assert_eq!(phase(0), phase(TURN));
}

#[test]
fn model_matrix_is_periodic_in_one_turn() {
    assert_eq!(model_matrix(98765), model_matrix(98765 + TURN));
    assert_eq!(
        cube_model_matrix(CubePart::Middle, 4321),
        cube_model_matrix(CubePart::Middle, 4321 + TURN)
    );
    assert_eq!(
        triforce_model_matrix(TriforcePart::BottomLeft, 7),
        triforce_model_matrix(TriforcePart::BottomLeft, 7 + TURN)
    );
}

#[test]
fn view_matrix_is_constant_across_calls() {
    let a = view_matrix();
    let b = view_matrix();
    assert_eq!(a, b);
    assert_eq!(a.position, Vec3Milli { x: 0, y: 0, z: 0 });
    assert_eq!(a.target, Vec3Milli { x: 0, y: 0, z: -1000 });
    assert_eq!(a.up, Vec3Milli { x: 0, y: 1000, z: 0 });
}

#[test]
fn projection_reduces_the_aspect_ratio() {
    let p = projection_matrix(512, 512);
    assert_eq!(p.aspect, Ratio { num: 1, den: 1 });
    assert_eq!(p.fov_ticks, EIGHTH_TURN);
    assert_eq!(p.near_milli, 100);
    assert_eq!(p.far_milli, 100_000);
    assert_eq!(projection_matrix(1024, 768).aspect, Ratio { num: 4, den: 3 });
    assert_eq!(projection_matrix(0, 7).aspect, Ratio { num: 0, den: 1 });
}

#[test]
fn projection_is_scale_invariant() {
    assert_eq!(projection_matrix(512, 512), projection_matrix(1024, 1024));
    assert_eq!(projection_matrix(640, 480), projection_matrix(1920, 1440));
    assert_eq!(projection_matrix(16, 9), projection_matrix(1920, 1080));
}

#[test]
fn gcd_and_reduce() {
    assert_eq!(gcd_u32(12, 8), 4);
    assert_eq!(gcd_u32(0, 5), 5);
    assert_eq!(gcd_u32(7, 7), 7);
    assert_eq!(reduce(1024, 768), Ratio { num: 4, den: 3 });
    assert_eq!(reduce(1, 1000), Ratio { num: 1, den: 1000 });
}

#[test]
fn torus_model_transform_values() {
    let m = model_matrix(0);
    assert_eq!(
        m.translation,
        Translation::Fixed(Vec3Milli { x: 0, y: 0, z: -2000 })
    );
    assert_eq!(m.rotation_axis, Vec3Milli { x: 0, y: 1000, z: 1000 });
    assert_eq!(m.angle_ticks, EIGHTH_TURN);
    assert_eq!(m.scale, Vec3Milli { x: 1000, y: 1000, z: 1000 });
}

#[test]
fn cube_model_transform_values() {
    let outer = cube_model_matrix(CubePart::Outer, 0);
    assert_eq!(
        outer.translation,
        Translation::Fixed(Vec3Milli { x: 0, y: 0, z: -3000 })
    );
    assert_eq!(outer.rotation_axis, Vec3Milli { x: 0, y: 1000, z: 0 });
    assert_eq!(outer.scale, Vec3Milli { x: 1000, y: 1000, z: 1000 });
    let middle = cube_model_matrix(CubePart::Middle, 0);
    assert_eq!(middle.rotation_axis, Vec3Milli { x: 1000, y: 1000, z: 0 });
    assert_eq!(middle.scale, Vec3Milli { x: 600, y: 600, z: 600 });
    let inner = cube_model_matrix(CubePart::Inner, 0);
    assert_eq!(inner.scale, Vec3Milli { x: 300, y: 300, z: 300 });
}

#[test]
fn cube_part_colors() {
    assert_eq!(cube_part_color(CubePart::Outer), Vec3Milli { x: 0, y: 1000, z: 0 });
    assert_eq!(cube_part_color(CubePart::Middle), Vec3Milli { x: 1000, y: 0, z: 0 });
    assert_eq!(cube_part_color(CubePart::Inner), Vec3Milli { x: 0, y: 0, z: 1000 });
}

#[test]
fn triforce_model_transforms() {
    let top = triforce_model_matrix(TriforcePart::Top, 0);
    assert_eq!(
        top.translation,
        Translation::Fixed(Vec3Milli { x: 0, y: 500, z: -4000 })
    );
    let left = triforce_model_matrix(TriforcePart::BottomLeft, 0);
    assert_eq!(
        left.translation,
        Translation::Orbit { radius_milli: 500, flip_x: false, y_milli: -500, z_center_milli: -4000 }
    );
    let right = triforce_model_matrix(TriforcePart::BottomRight, 0);
    assert_eq!(
        right.translation,
        Translation::Orbit { radius_milli: 500, flip_x: true, y_milli: -500, z_center_milli: -4000 }
    );
    assert_eq!(top.rotation_axis, Vec3Milli { x: 0, y: 1000, z: 0 });
}
