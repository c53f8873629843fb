//! The three shape renderers.
//!
//! Each renderer owns its context state, its pipeline and (for the
//! textured shape) its texture; nothing is shared between instances.
//! Construction assembles a renderer from a finished `InitFlow`; any
//! construction failure yields the error and no renderer.  A render
//! call computes the frame plan: clear, activate this pipeline,
//! upload the per-sub-part transforms, one draw call per sub-part,
//! and one flush at the end.  A failed uniform lookup aborts the
//! whole call with exactly `UnknownUniform` for the first name, in
//! lookup order, that the linked program lacks.

use crate::context::{DepthFunc, GlContextState};
use crate::frame::{FrameCmd, Mat4Expr};
use crate::gl_types::{GfxError, PrimitiveMode, UniformName};
use crate::init::{InitFlow, InitPhase};
use crate::shader::Shader;
use crate::texture::{TextureContents, TextureSlot};
use crate::transform::{
    cube_model_matrix, cube_model_spec, cube_part_color, cube_part_color_spec, projection_matrix,
    projection_spec, torus_model_spec, triforce_model_matrix, triforce_model_spec, view_matrix,
    view_spec, CubePart, TriforcePart, Vec3Milli,
};
use vstd::prelude::*;

verus! {

/// The number of torus vertices: one per point of the parameter grid.
pub const TORUS_VERTEX_COUNT: i32 = 5329;

/// The nested-cubes renderer.
#[derive(Debug)]
pub struct Cube {
    pub context: GlContextState,
    pub shader: Shader,
}

/// The torus point-cloud renderer.
#[derive(Debug)]
pub struct Torus {
    pub context: GlContextState,
    pub shader: Shader,
    pub indices_count: i32,
}

/// The lit, textured triforce renderer.
#[derive(Debug)]
pub struct Triforce {
    pub context: GlContextState,
    pub shader: Shader,
    pub texture: TextureSlot,
    pub light_source: Vec3Milli,
    pub light_color: Vec3Milli,
    pub ambient_light: Vec3Milli,
}

/// A placeholder context state; never reachable.
fn dummy_context() -> GlContextState {
    GlContextState { depth_test: false, depth_func: DepthFunc::Less }
}

/// A placeholder shader; never reachable.
fn dummy_shader() -> Shader {
    Shader { program: 0, uniforms: Vec::new() }
}

impl Cube {
    /// Assembles a cube renderer from a finished construction, or
    /// hands back exactly the error that aborted it.
    pub fn try_new(flow: InitFlow) -> (r: Result<Cube, GfxError>)
        requires
            flow.wf(),
            flow.phase is Ready || flow.phase is Failed,
        ensures
            flow.phase is Ready ==> (r matches Ok(c) && c.context == flow.context->Some_0
                && c.shader == flow.shader->Some_0),
            flow.phase is Failed ==> r == Err::<Cube, GfxError>(flow.failure->Some_0),
    {
        match flow.phase {
            InitPhase::Ready => {
                let context = match flow.context {
                    Some(c) => c,
                    None => {
                        proof {
                            assert(false);
                        }
                        dummy_context()
                    },
                };
                let shader = match flow.shader {
                    Some(s) => s,
                    None => {
                        proof {
                            assert(false);
                        }
                        dummy_shader()
                    },
                };
                Ok(Cube { context, shader })
            },
            _ => {
                match flow.failure {
                    Some(e) => Err(e),
                    None => {
                        proof {
                            assert(false);
                        }
                        Err(GfxError::ProgramAllocation)
                    },
                }
            },
        }
    }

    /// The first uniform, in this renderer's lookup order, that the
    /// linked program lacks.
    pub open spec fn first_missing_uniform(self) -> Option<UniformName> {
        let u = self.shader.uniforms@;
        if !u.contains(UniformName::View) {
            Some(UniformName::View)
        } else if !u.contains(UniformName::Projection) {
            Some(UniformName::Projection)
        } else if !u.contains(UniformName::Color) {
            Some(UniformName::Color)
        } else if !u.contains(UniformName::Model) {
            Some(UniformName::Model)
        } else {
            None
        }
    }

    /// The cube frame plan: clear, activate, view and projection
    /// once, then colour, model transform and one 24-vertex
    /// line-list draw for each cube, outer to inner, and a final
    /// flush.
    pub open spec fn frame_spec(self, width: u32, height: u32, dtheta: u64) -> Seq<FrameCmd> {
        seq![
            FrameCmd::SetClearColor { red: 0, green: 0, blue: 0, alpha: 1000 },
            FrameCmd::SetClearDepth { depth: 1000 },
            FrameCmd::Clear { color: true, depth: true },
            FrameCmd::Activate { program: self.shader.program },
            FrameCmd::SetMat4 { name: UniformName::View, value: Mat4Expr::View(view_spec()) },
            FrameCmd::SetMat4 {
                name: UniformName::Projection,
                value: Mat4Expr::Projection(projection_spec(width, height)),
            },
            FrameCmd::SetVec3 {
                name: UniformName::Color,
                value: cube_part_color_spec(CubePart::Outer),
            },
            FrameCmd::SetMat4 {
                name: UniformName::Model,
                value: Mat4Expr::Model(cube_model_spec(CubePart::Outer, dtheta)),
            },
            FrameCmd::DrawArrays { mode: PrimitiveMode::Lines, first: 0, count: 24 },
            FrameCmd::SetVec3 {
                name: UniformName::Color,
                value: cube_part_color_spec(CubePart::Middle),
            },
            FrameCmd::SetMat4 {
                name: UniformName::Model,
                value: Mat4Expr::Model(cube_model_spec(CubePart::Middle, dtheta)),
            },
            FrameCmd::DrawArrays { mode: PrimitiveMode::Lines, first: 0, count: 24 },
            FrameCmd::SetVec3 {
                name: UniformName::Color,
                value: cube_part_color_spec(CubePart::Inner),
            },
            FrameCmd::SetMat4 {
                name: UniformName::Model,
                value: Mat4Expr::Model(cube_model_spec(CubePart::Inner, dtheta)),
            },
            FrameCmd::DrawArrays { mode: PrimitiveMode::Lines, first: 0, count: 24 },
            FrameCmd::Flush,
        ]
    }

    /// Plans one cube frame: exactly the frame plan when every
    /// uniform resolves, else exactly `UnknownUniform` for the first
    /// missing name.  The height must be positive: the projection's
    /// aspect ratio divides by it.
    pub fn try_render(&self, width: u32, height: u32, dtheta: u64) -> (r: Result<
        Vec<FrameCmd>,
        GfxError,
    >)
        requires
            height > 0,
        ensures
            self.first_missing_uniform() is None ==> (r matches Ok(cmds) && cmds@
                == self.frame_spec(width, height, dtheta)),
            self.first_missing_uniform() matches Some(n) ==> r == Err::<Vec<FrameCmd>, GfxError>(
                GfxError::UnknownUniform { name: n },
            ),
    {
        let mut cmds: Vec<FrameCmd> = Vec::new();
        cmds.push(FrameCmd::SetClearColor { red: 0, green: 0, blue: 0, alpha: 1000 });
        cmds.push(FrameCmd::SetClearDepth { depth: 1000 });
        cmds.push(FrameCmd::Clear { color: true, depth: true });
        cmds.push(FrameCmd::Activate { program: self.shader.program });
        match self.shader.set_mat4_f32(UniformName::View, Mat4Expr::View(view_matrix())) {
            Ok(c) => cmds.push(c),
            Err(e) => {
                return Err(e);
            },
        }
        match self.shader.set_mat4_f32(
            UniformName::Projection,
            Mat4Expr::Projection(projection_matrix(width, height)),
        ) {
            Ok(c) => cmds.push(c),
            Err(e) => {
                return Err(e);
            },
        }
        match self.shader.set_vec3_f32(UniformName::Color, cube_part_color(CubePart::Outer)) {
            Ok(c) => cmds.push(c),
            Err(e) => {
                return Err(e);
            },
        }
        match self.shader.set_mat4_f32(
            UniformName::Model,
            Mat4Expr::Model(cube_model_matrix(CubePart::Outer, dtheta)),
        ) {
            Ok(c) => cmds.push(c),
            Err(e) => {
                return Err(e);
            },
        }
        cmds.push(FrameCmd::DrawArrays { mode: PrimitiveMode::Lines, first: 0, count: 24 });
        match self.shader.set_vec3_f32(UniformName::Color, cube_part_color(CubePart::Middle)) {
            Ok(c) => cmds.push(c),
            Err(e) => {
                return Err(e);
            },
        }
        match self.shader.set_mat4_f32(
            UniformName::Model,
            Mat4Expr::Model(cube_model_matrix(CubePart::Middle, dtheta)),
        ) {
            Ok(c) => cmds.push(c),
            Err(e) => {
                return Err(e);
            },
        }
        cmds.push(FrameCmd::DrawArrays { mode: PrimitiveMode::Lines, first: 0, count: 24 });
        match self.shader.set_vec3_f32(UniformName::Color, cube_part_color(CubePart::Inner)) {
            Ok(c) => cmds.push(c),
            Err(e) => {
                return Err(e);
            },
        }
        match self.shader.set_mat4_f32(
            UniformName::Model,
            Mat4Expr::Model(cube_model_matrix(CubePart::Inner, dtheta)),
        ) {
            Ok(c) => cmds.push(c),
            Err(e) => {
                return Err(e);
            },
        }
        cmds.push(FrameCmd::DrawArrays { mode: PrimitiveMode::Lines, first: 0, count: 24 });
        cmds.push(FrameCmd::Flush);
        proof {
            assert(cmds@ =~= self.frame_spec(width, height, dtheta));
        }
        Ok(cmds)
    }
}

/// A cube frame holds exactly three draw calls — line lists of 24
/// vertices, one per cube, outer first, middle second, inner last —
/// and nothing else draws; the flush comes last.
pub proof fn lemma_cube_frame_exactly_three_draws(c: Cube, width: u32, height: u32, dtheta: u64)
    ensures
        ({
            let f = c.frame_spec(width, height, dtheta);
            &&& f.len() == 16
            &&& f[8] == (FrameCmd::DrawArrays { mode: PrimitiveMode::Lines, first: 0, count: 24 })
            &&& f[11] == (FrameCmd::DrawArrays { mode: PrimitiveMode::Lines, first: 0, count: 24 })
            &&& f[14] == (FrameCmd::DrawArrays { mode: PrimitiveMode::Lines, first: 0, count: 24 })
            &&& f[7] == (FrameCmd::SetMat4 {
                name: UniformName::Model,
                value: Mat4Expr::Model(cube_model_spec(CubePart::Outer, dtheta)),
            })
            &&& f[10] == (FrameCmd::SetMat4 {
                name: UniformName::Model,
                value: Mat4Expr::Model(cube_model_spec(CubePart::Middle, dtheta)),
            })
            &&& f[13] == (FrameCmd::SetMat4 {
                name: UniformName::Model,
                value: Mat4Expr::Model(cube_model_spec(CubePart::Inner, dtheta)),
            })
            &&& forall|i: int|
                0 <= i < 16 && i != 8 && i != 11 && i != 14 ==> !(#[trigger] f[i] is DrawArrays)
            &&& f[15] == FrameCmd::Flush
        }),
{
}

impl Torus {
    /// Assembles a torus renderer from a finished construction, or
    /// hands back exactly the error that aborted it.
    pub fn try_new(flow: InitFlow) -> (r: Result<Torus, GfxError>)
        requires
            flow.wf(),
            flow.phase is Ready || flow.phase is Failed,
        ensures
            flow.phase is Ready ==> (r matches Ok(t) && t.context == flow.context->Some_0
                && t.shader == flow.shader->Some_0 && t.indices_count == TORUS_VERTEX_COUNT),
            flow.phase is Failed ==> r == Err::<Torus, GfxError>(flow.failure->Some_0),
    {
        match flow.phase {
            InitPhase::Ready => {
                let context = match flow.context {
                    Some(c) => c,
                    None => {
                        proof {
                            assert(false);
                        }
                        dummy_context()
                    },
                };
                let shader = match flow.shader {
                    Some(s) => s,
                    None => {
                        proof {
                            assert(false);
                        }
                        dummy_shader()
                    },
                };
                Ok(Torus { context, shader, indices_count: TORUS_VERTEX_COUNT })
            },
            _ => {
                match flow.failure {
                    Some(e) => Err(e),
                    None => {
                        proof {
                            assert(false);
                        }
                        Err(GfxError::ProgramAllocation)
                    },
                }
            },
        }
    }

    /// The first uniform, in this renderer's lookup order, that the
    /// linked program lacks.
    pub open spec fn first_missing_uniform(self) -> Option<UniformName> {
        let u = self.shader.uniforms@;
        if !u.contains(UniformName::Model) {
            Some(UniformName::Model)
        } else if !u.contains(UniformName::View) {
            Some(UniformName::View)
        } else if !u.contains(UniformName::Projection) {
            Some(UniformName::Projection)
        } else {
            None
        }
    }

    /// The torus frame plan: clear, activate, the three transforms,
    /// one point-list draw of the whole cloud, and a flush.
    pub open spec fn frame_spec(self, width: u32, height: u32, dtheta: u64) -> Seq<FrameCmd> {
        seq![
            FrameCmd::SetClearColor { red: 0, green: 0, blue: 0, alpha: 1000 },
            FrameCmd::SetClearDepth { depth: 1000 },
            FrameCmd::Clear { color: true, depth: true },
            FrameCmd::Activate { program: self.shader.program },
            FrameCmd::SetMat4 {
                name: UniformName::Model,
                value: Mat4Expr::Model(torus_model_spec(dtheta)),
            },
            FrameCmd::SetMat4 { name: UniformName::View, value: Mat4Expr::View(view_spec()) },
            FrameCmd::SetMat4 {
                name: UniformName::Projection,
                value: Mat4Expr::Projection(projection_spec(width, height)),
            },
            FrameCmd::DrawArrays {
                mode: PrimitiveMode::Points,
                first: 0,
                count: self.indices_count,
            },
            FrameCmd::Flush,
        ]
    }

    /// Plans one torus frame; contract as `Cube::try_render`.
    pub fn try_render(&self, width: u32, height: u32, dtheta: u64) -> (r: Result<
        Vec<FrameCmd>,
        GfxError,
    >)
        requires
            height > 0,
        ensures
            self.first_missing_uniform() is None ==> (r matches Ok(cmds) && cmds@
                == self.frame_spec(width, height, dtheta)),
            self.first_missing_uniform() matches Some(n) ==> r == Err::<Vec<FrameCmd>, GfxError>(
                GfxError::UnknownUniform { name: n },
            ),
    {
        let mut cmds: Vec<FrameCmd> = Vec::new();
        cmds.push(FrameCmd::SetClearColor { red: 0, green: 0, blue: 0, alpha: 1000 });
        cmds.push(FrameCmd::SetClearDepth { depth: 1000 });
        cmds.push(FrameCmd::Clear { color: true, depth: true });
        cmds.push(FrameCmd::Activate { program: self.shader.program });
        match self.shader.set_mat4_f32(
            UniformName::Model,
            Mat4Expr::Model(crate::transform::model_matrix(dtheta)),
        ) {
            Ok(c) => cmds.push(c),
            Err(e) => {
                return Err(e);
            },
        }
        match self.shader.set_mat4_f32(UniformName::View, Mat4Expr::View(view_matrix())) {
            Ok(c) => cmds.push(c),
            Err(e) => {
                return Err(e);
            },
        }
        match self.shader.set_mat4_f32(
            UniformName::Projection,
            Mat4Expr::Projection(projection_matrix(width, height)),
        ) {
            Ok(c) => cmds.push(c),
            Err(e) => {
                return Err(e);
            },
        }
        cmds.push(
            FrameCmd::DrawArrays {
                mode: PrimitiveMode::Points,
                first: 0,
                count: self.indices_count,
            },
        );
        cmds.push(FrameCmd::Flush);
        proof {
            assert(cmds@ =~= self.frame_spec(width, height, dtheta));
        }
        Ok(cmds)
    }
}

impl Triforce {
    /// Assembles a triforce renderer from a finished construction,
    /// or hands back exactly the error that aborted it.  A fresh
    /// renderer holds the placeholder texture and the fixed light:
    /// source towards (-1, 0, 1), white light, 0.2 ambient.
    pub fn try_new(flow: InitFlow) -> (r: Result<Triforce, GfxError>)
        requires
            flow.wf(),
            flow.phase is Ready || flow.phase is Failed,
        ensures
            flow.phase is Ready ==> (r matches Ok(t) && t.context == flow.context->Some_0
                && t.shader == flow.shader->Some_0 && t.texture.contents
                == TextureContents::Placeholder && t.light_source == (Vec3Milli {
                x: -1000i32,
                y: 0,
                z: 1000,
            }) && t.light_color == (Vec3Milli { x: 1000, y: 1000, z: 1000 }) && t.ambient_light
                == (Vec3Milli { x: 200, y: 200, z: 200 })),
            flow.phase is Failed ==> r == Err::<Triforce, GfxError>(flow.failure->Some_0),
    {
        match flow.phase {
            InitPhase::Ready => {
                let context = match flow.context {
                    Some(c) => c,
                    None => {
                        proof {
                            assert(false);
                        }
                        dummy_context()
                    },
                };
                let shader = match flow.shader {
                    Some(s) => s,
                    None => {
                        proof {
                            assert(false);
                        }
                        dummy_shader()
                    },
                };
                Ok(
                    Triforce {
                        context,
                        shader,
                        texture: TextureSlot::placeholder(),
                        light_source: Vec3Milli { x: -1000, y: 0, z: 1000 },
                        light_color: Vec3Milli { x: 1000, y: 1000, z: 1000 },
                        ambient_light: Vec3Milli { x: 200, y: 200, z: 200 },
                    },
                )
            },
            _ => {
                match flow.failure {
                    Some(e) => Err(e),
                    None => {
                        proof {
                            assert(false);
                        }
                        Err(GfxError::ProgramAllocation)
                    },
                }
            },
        }
    }

    /// The first uniform, in this renderer's lookup order, that the
    /// linked program lacks.
    pub open spec fn first_missing_uniform(self) -> Option<UniformName> {
        let u = self.shader.uniforms@;
        if !u.contains(UniformName::LightSource) {
            Some(UniformName::LightSource)
        } else if !u.contains(UniformName::LightColor) {
            Some(UniformName::LightColor)
        } else if !u.contains(UniformName::AmbientLight) {
            Some(UniformName::AmbientLight)
        } else if !u.contains(UniformName::Sampler) {
            Some(UniformName::Sampler)
        } else if !u.contains(UniformName::Projection) {
            Some(UniformName::Projection)
        } else if !u.contains(UniformName::ViewModel) {
            Some(UniformName::ViewModel)
        } else if !u.contains(UniformName::Normal) {
            Some(UniformName::Normal)
        } else {
            None
        }
    }

    /// The commands of one triforce triangle: its view-model and
    /// normal matrices, the texture binding, and one three-vertex
    /// triangle-list draw.
    pub open spec fn part_cmds_spec(self, part: TriforcePart, dtheta: u64) -> Seq<FrameCmd> {
        seq![
            FrameCmd::SetMat4 {
                name: UniformName::ViewModel,
                value: Mat4Expr::ViewModel(view_spec(), triforce_model_spec(part, dtheta)),
            },
            FrameCmd::SetMat4 {
                name: UniformName::Normal,
                value: Mat4Expr::NormalOf(view_spec(), triforce_model_spec(part, dtheta)),
            },
            FrameCmd::SelectTextureUnit { unit: 0 },
            FrameCmd::BindTexture,
            FrameCmd::DrawArrays { mode: PrimitiveMode::Triangles, first: 0, count: 3 },
        ]
    }

    /// The triforce frame plan: clear, activate, the light uniforms,
    /// the sampler unit and the projection once, then the commands
    /// of the three triangles — top, bottom left, bottom right — and
    /// a flush.
    pub open spec fn frame_spec(self, width: u32, height: u32, dtheta: u64) -> Seq<FrameCmd> {
        seq![
            FrameCmd::SetClearColor { red: 0, green: 0, blue: 0, alpha: 1000 },
            FrameCmd::SetClearDepth { depth: 1000 },
            FrameCmd::Clear { color: true, depth: true },
            FrameCmd::Activate { program: self.shader.program },
            FrameCmd::SetVec3 { name: UniformName::LightSource, value: self.light_source },
            FrameCmd::SetVec3 { name: UniformName::LightColor, value: self.light_color },
            FrameCmd::SetVec3 { name: UniformName::AmbientLight, value: self.ambient_light },
            FrameCmd::SetInt { name: UniformName::Sampler, value: 0 },
            FrameCmd::SetMat4 {
                name: UniformName::Projection,
                value: Mat4Expr::Projection(projection_spec(width, height)),
            },
        ] + self.part_cmds_spec(TriforcePart::Top, dtheta) + self.part_cmds_spec(
            TriforcePart::BottomLeft,
            dtheta,
        ) + self.part_cmds_spec(TriforcePart::BottomRight, dtheta) + seq![FrameCmd::Flush]
    }

    /// Plans one triforce frame; contract as `Cube::try_render`.
    pub fn try_render(&self, width: u32, height: u32, dtheta: u64) -> (r: Result<
        Vec<FrameCmd>,
        GfxError,
    >)
        requires
            height > 0,
        ensures
            self.first_missing_uniform() is None ==> (r matches Ok(cmds) && cmds@
                == self.frame_spec(width, height, dtheta)),
            self.first_missing_uniform() matches Some(n) ==> r == Err::<Vec<FrameCmd>, GfxError>(
                GfxError::UnknownUniform { name: n },
            ),
    {
        let mut cmds: Vec<FrameCmd> = Vec::new();
        cmds.push(FrameCmd::SetClearColor { red: 0, green: 0, blue: 0, alpha: 1000 });
        cmds.push(FrameCmd::SetClearDepth { depth: 1000 });
        cmds.push(FrameCmd::Clear { color: true, depth: true });
        cmds.push(FrameCmd::Activate { program: self.shader.program });
        match self.shader.set_vec3_f32(UniformName::LightSource, self.light_source) {
            Ok(c) => cmds.push(c),
            Err(e) => {
                return Err(e);
            },
        }
        match self.shader.set_vec3_f32(UniformName::LightColor, self.light_color) {
            Ok(c) => cmds.push(c),
            Err(e) => {
                return Err(e);
            },
        }
        match self.shader.set_vec3_f32(UniformName::AmbientLight, self.ambient_light) {
            Ok(c) => cmds.push(c),
            Err(e) => {
                return Err(e);
            },
        }
        match self.shader.set_i32(UniformName::Sampler, 0) {
            Ok(c) => cmds.push(c),
            Err(e) => {
                return Err(e);
            },
        }
        match self.shader.set_mat4_f32(
            UniformName::Projection,
            Mat4Expr::Projection(projection_matrix(width, height)),
        ) {
            Ok(c) => cmds.push(c),
            Err(e) => {
                return Err(e);
            },
        }
        // Top triangle
        match self.shader.set_mat4_f32(
            UniformName::ViewModel,
            Mat4Expr::ViewModel(view_matrix(), triforce_model_matrix(TriforcePart::Top, dtheta)),
        ) {
            Ok(c) => cmds.push(c),
            Err(e) => {
                return Err(e);
            },
        }
        match self.shader.set_mat4_f32(
            UniformName::Normal,
            Mat4Expr::NormalOf(view_matrix(), triforce_model_matrix(TriforcePart::Top, dtheta)),
        ) {
            Ok(c) => cmds.push(c),
            Err(e) => {
                return Err(e);
            },
        }
        cmds.push(FrameCmd::SelectTextureUnit { unit: 0 });
        cmds.push(FrameCmd::BindTexture);
        cmds.push(FrameCmd::DrawArrays { mode: PrimitiveMode::Triangles, first: 0, count: 3 });
        // Bottom left triangle
        match self.shader.set_mat4_f32(
            UniformName::ViewModel,
            Mat4Expr::ViewModel(
                view_matrix(),
                triforce_model_matrix(TriforcePart::BottomLeft, dtheta),
            ),
        ) {
            Ok(c) => cmds.push(c),
            Err(e) => {
                proof {
                    assert(false);
                }
                return Err(e);
            },
        }
        match self.shader.set_mat4_f32(
            UniformName::Normal,
            Mat4Expr::NormalOf(
                view_matrix(),
                triforce_model_matrix(TriforcePart::BottomLeft, dtheta),
            ),
        ) {
            Ok(c) => cmds.push(c),
            Err(e) => {
                proof {
                    assert(false);
                }
                return Err(e);
            },
        }
        cmds.push(FrameCmd::SelectTextureUnit { unit: 0 });
        cmds.push(FrameCmd::BindTexture);
        cmds.push(FrameCmd::DrawArrays { mode: PrimitiveMode::Triangles, first: 0, count: 3 });
        // Bottom right triangle
        match self.shader.set_mat4_f32(
            UniformName::ViewModel,
            Mat4Expr::ViewModel(
                view_matrix(),
                triforce_model_matrix(TriforcePart::BottomRight, dtheta),
            ),
        ) {
            Ok(c) => cmds.push(c),
            Err(e) => {
                proof {
                    assert(false);
                }
                return Err(e);
            },
        }
        match self.shader.set_mat4_f32(
            UniformName::Normal,
            Mat4Expr::NormalOf(
                view_matrix(),
                triforce_model_matrix(TriforcePart::BottomRight, dtheta),
            ),
        ) {
            Ok(c) => cmds.push(c),
            Err(e) => {
                proof {
                    assert(false);
                }
                return Err(e);
            },
        }
        cmds.push(FrameCmd::SelectTextureUnit { unit: 0 });
        cmds.push(FrameCmd::BindTexture);
        cmds.push(FrameCmd::DrawArrays { mode: PrimitiveMode::Triangles, first: 0, count: 3 });
        cmds.push(FrameCmd::Flush);
        proof {
            assert(cmds@ =~= self.frame_spec(width, height, dtheta));
        }
        Ok(cmds)
    }
}

} // verus!
