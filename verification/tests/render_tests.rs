//! Frame plans: the end-to-end cube scenario, the torus and triforce
//! plans, and the geometry tables they draw.

use parametric_surfaces::frame::{FrameCmd, Mat4Expr};
use parametric_surfaces::geometry::{
    compute_vertices, cube_vertices, triforce_tex_coords, triforce_vertices,
};
use parametric_surfaces::gl_types::{GfxError, PrimitiveMode, UniformName};
use parametric_surfaces::context::{DepthFunc, GlContextState};
use parametric_surfaces::shader::Shader;
use parametric_surfaces::shapes::{Cube, Torus, Triforce};
use parametric_surfaces::texture::TextureSlot;
use parametric_surfaces::transform::Vec3Milli;

fn test_context() -> GlContextState {
    GlContextState { depth_test: true, depth_func: DepthFunc::LessOrEqual }
}

fn cube_on_512() -> Cube {
    Cube {
        context: test_context(),
        shader: Shader {
            program: 1,
            uniforms: vec![
                UniformName::Model,
                UniformName::View,
                UniformName::Projection,
                UniformName::Color,
            ],
        },
    }
}

#[test]
fn cube_frame_has_three_line_draws_outer_to_inner() {
    // A cube renderer on a 512 x 512 canvas, rendered with no
    // rotation offset: exactly three line-list draw calls of 24
    // vertices, outer cube first, middle second, inner last.
    let cube = cube_on_512();
    let cmds = cube.try_render(512, 512, 0).unwrap();
    assert_eq!(cmds.len(), 16);
    let draws: Vec<usize> = (0..cmds.len())
        .filter(|i| matches!(cmds[*i], FrameCmd::DrawArrays { .. }))
        .collect();
    assert_eq!(draws, vec![8, 11, 14]);
    for i in draws {
        assert_eq!(
            cmds[i],
            FrameCmd::DrawArrays { mode: PrimitiveMode::Lines, first: 0, count: 24 }
        );
    }
    // The model transform before each draw identifies the cube by
    // its scale: full size, then 0.6, then 0.3.
    let scales: Vec<i32> = [7usize, 10, 13]
        .iter()
        .map(|i| match cmds[*i] {
            FrameCmd::SetMat4 { name: UniformName::Model, value: Mat4Expr::Model(m) } => m.scale.x,
            ref other => panic!("expected a model upload, got {:?}", other),
        })
        .collect();
    assert_eq!(scales, vec![1000, 600, 300]);
    assert_eq!(cmds[15], FrameCmd::Flush);
    assert_eq!(cmds[2], FrameCmd::Clear { color: true, depth: true });
    assert_eq!(cmds[3], FrameCmd::Activate { program: 1 });
}

#[test]
fn cube_frame_reports_the_first_missing_uniform() {
    let mut cube = cube_on_512();
    cube.shader.uniforms = vec![UniformName::Model, UniformName::View, UniformName::Projection];
    let err = cube.try_render(512, 512, 0).unwrap_err();
    assert_eq!(err, GfxError::UnknownUniform { name: UniformName::Color });
    cube.shader.uniforms = Vec::new();
    let err = cube.try_render(512, 512, 0).unwrap_err();
    assert_eq!(err, GfxError::UnknownUniform { name: UniformName::View });
}

#[test]
fn torus_frame_draws_the_whole_point_cloud() {
    let torus = Torus {
        context: test_context(),
        shader: Shader {
            program: 2,
            uniforms: vec![UniformName::Model, UniformName::View, UniformName::Projection],
        },
        indices_count: 5329,
    };
    let cmds = torus.try_render(640, 480, 17).unwrap();
    assert_eq!(cmds.len(), 9);
    assert_eq!(
        cmds[7],
        FrameCmd::DrawArrays { mode: PrimitiveMode::Points, first: 0, count: 5329 }
    );
    assert_eq!(cmds[8], FrameCmd::Flush);
}

#[test]
fn triforce_frame_draws_three_textured_triangles() {
    let triforce = Triforce {
        context: test_context(),
        shader: Shader {
            program: 3,
            uniforms: vec![
                UniformName::ViewModel,
                UniformName::Normal,
                UniformName::Projection,
                UniformName::Sampler,
                UniformName::LightSource,
                UniformName::LightColor,
                UniformName::AmbientLight,
            ],
        },
        texture: TextureSlot::placeholder(),
        light_source: Vec3Milli { x: -1000, y: 0, z: 1000 },
        light_color: Vec3Milli { x: 1000, y: 1000, z: 1000 },
        ambient_light: Vec3Milli { x: 200, y: 200, z: 200 },
    };
    let cmds = triforce.try_render(512, 512, 0).unwrap();
    assert_eq!(cmds.len(), 25);
    let draws: Vec<usize> = (0..cmds.len())
        .filter(|i| matches!(cmds[*i], FrameCmd::DrawArrays { .. }))
        .collect();
    assert_eq!(draws.len(), 3);
    for i in draws {
        assert_eq!(
            cmds[i],
            FrameCmd::DrawArrays { mode: PrimitiveMode::Triangles, first: 0, count: 3 }
        );
    }
    assert_eq!(cmds[24], FrameCmd::Flush);
    // The sampler points at unit zero and the texture binds there.
    assert_eq!(cmds[7], FrameCmd::SetInt { name: UniformName::Sampler, value: 0 });
    assert_eq!(cmds[11], FrameCmd::SelectTextureUnit { unit: 0 });
    assert_eq!(cmds[12], FrameCmd::BindTexture);
}

#[test]
fn triforce_frame_reports_missing_lighting_uniform() {
    let triforce = Triforce {
        context: test_context(),
        shader: Shader { program: 3, uniforms: vec![UniformName::LightSource] },
        texture: TextureSlot::placeholder(),
        light_source: Vec3Milli { x: -1000, y: 0, z: 1000 },
        light_color: Vec3Milli { x: 1000, y: 1000, z: 1000 },
        ambient_light: Vec3Milli { x: 200, y: 200, z: 200 },
    };
    let err = triforce.try_render(512, 512, 0).unwrap_err();
    assert_eq!(err, GfxError::UnknownUniform { name: UniformName::LightColor });
}

#[test]
fn torus_grid_covers_both_angles() {
    let (grid, count) = compute_vertices();
    assert_eq!(count, 5329);
    assert_eq!(grid.len(), 5329);
    assert_eq!(grid[0], (0, 0));
    assert_eq!(grid[1], (5, 0));
    assert_eq!(grid[72], (360, 0));
    assert_eq!(grid[73], (0, 5));
    assert_eq!(grid[5328], (360, 360));
}

#[test]
fn cube_wireframe_runs_axis_by_axis() {
    let v = cube_vertices();
    assert_eq!(v.len(), 72);
    // Every coordinate sits on a face of the unit cube.
    assert!(v.iter().all(|c| *c == 500 || *c == -500));
    // Each edge's two endpoints differ in exactly one coordinate.
    for e in 0..12 {
        let a = &v[e * 6..e * 6 + 3];
        let b = &v[e * 6 + 3..e * 6 + 6];
        let differing = (0..3).filter(|i| a[*i] != b[*i]).count();
        assert_eq!(differing, 1);
    }
    // The first edge runs along x at the bottom near face.
    assert_eq!(&v[0..6], &[-500, -500, -500, 500, -500, -500]);
}

#[test]
fn triforce_tables_interleave_positions_and_normals() {
    let v = triforce_vertices();
    assert_eq!(v.len(), 54);
    // The apex vertex: position (0, 1, 0), normal (0, 0, 1).
    assert_eq!(&v[0..6], &[0, 1000, 0, 0, 0, 1000]);
    // Every vertex lies in the z = 0 plane with the unit z normal.
    for vert in 0..9 {
        assert_eq!(v[vert * 6 + 2], 0);
        assert_eq!(&v[vert * 6 + 3..vert * 6 + 6], &[0, 0, 1000]);
    }
    let t = triforce_tex_coords();
    assert_eq!(t.len(), 18);
    // The apex maps to the top middle of the image.
    assert_eq!(&t[0..2], &[500, 0]);
    // The bottom-right corner maps to the bottom-right of the image.
    assert_eq!(&t[16..18], &[1000, 1000]);
}
