//! Shader pipeline construction and use.
//!
//! Building a pipeline is a fixed dialogue with the drawing context:
//! allocate a program, then for each stage allocate, source and
//! compile it, then link.  The host layer performs each call and
//! reports its outcome; `ShaderBuilder` decides every transition and
//! tells the host exactly which resources to delete, so that a failed
//! build releases everything it allocated and a successful one keeps
//! only the linked program.  A `Shader` is the usable result: the
//! linked program together with its active uniforms, resolved once.

use crate::frame::{FrameCmd, Mat4Expr};
use crate::gl_types::{GfxError, Stage, UniformName};
use crate::transform::Vec3Milli;
use vstd::prelude::*;

verus! {

/// Where a build stands: which outcome it waits for next.
#[derive(Clone, Copy, Debug, PartialEq, Eq, Structural)]
pub enum BuildPhase {
    /// Waiting for the program allocation.
    NeedProgram,
    /// Waiting for the vertex stage allocation.
    NeedVertexCreate,
    /// Waiting for the vertex stage compile result.
    NeedVertexCompile,
    /// Waiting for the fragment stage allocation.
    NeedFragmentCreate,
    /// Waiting for the fragment stage compile result.
    NeedFragmentCompile,
    /// Waiting for the link result.
    NeedLink,
    /// Linked; only the program is still alive.
    Linked,
    /// Failed; everything the build allocated has been released.
    Failed,
}

/// What the host must do next for a build.
#[derive(Clone, Copy, Debug, PartialEq, Eq, Structural)]
pub enum BuildAction {
    /// Allocate a program object.
    CreateProgram,
    /// Allocate this stage's shader object.
    CreateShader(Stage),
    /// Source and compile this stage.
    CompileShader(Stage),
    /// Attach both stages and link the program.
    AttachAndLink,
    /// The build succeeded; take the program.
    Finish,
    /// The build failed; report the error.
    Abort,
}

/// The outcome of one drawing-context call, reported by the host.
#[derive(Clone, Debug, PartialEq, Eq)]
pub enum BuildEvent {
    /// Whether an allocation returned an object.
    Created(bool),
    /// Whether a compile succeeded; on failure `log` is the stage's
    /// diagnostic log.
    CompileFinished { ok: bool, log: String },
    /// Whether the link succeeded; on failure `log` is the program's
    /// diagnostic log.
    LinkFinished { ok: bool, log: String },
}

/// A resource the host must delete now.
#[derive(Clone, Copy, Debug, PartialEq, Eq, Structural)]
pub enum DeleteCmd {
    DeleteShader(Stage),
    DeleteProgram,
}

/// A pipeline build in progress.  The three `_live` fields mirror
/// which context resources the build currently holds, counting the
/// deletions it has told the host to perform.
#[derive(Clone, Debug, PartialEq, Eq)]
pub struct ShaderBuilder {
    pub phase: BuildPhase,
    pub program_live: bool,
    pub vertex_live: bool,
    pub fragment_live: bool,
    pub failure: Option<GfxError>,
}

/// The linked result of a successful build: the program handle the
/// host assigned, and the uniforms the linker kept active, resolved
/// once at construction.
#[derive(Clone, Debug, PartialEq, Eq)]
pub struct Shader {
    pub program: u32,
    pub uniforms: Vec<UniformName>,
}

/// The global "currently active program" slot of the drawing
/// context.  It is context-wide state, not owned by any renderer:
/// the last activation wins, and every draw call reads it.
#[derive(Clone, Copy, Debug, PartialEq, Eq, Structural)]
pub struct ActivePipeline {
    pub active: Option<u32>,
}

impl ShaderBuilder {
    /// A build that has not asked the context for anything yet.
    pub open spec fn start_spec() -> ShaderBuilder {
        ShaderBuilder {
            phase: BuildPhase::NeedProgram,
            program_live: false,
            vertex_live: false,
            fragment_live: false,
            failure: None,
        }
    }

    /// Which event a build in this phase waits for.
    pub open spec fn expects(self, ev: BuildEvent) -> bool {
        match (self.phase, ev) {
            (BuildPhase::NeedProgram, BuildEvent::Created(_)) => true,
            (BuildPhase::NeedVertexCreate, BuildEvent::Created(_)) => true,
            (BuildPhase::NeedVertexCompile, BuildEvent::CompileFinished { .. }) => true,
            (BuildPhase::NeedFragmentCreate, BuildEvent::Created(_)) => true,
            (BuildPhase::NeedFragmentCompile, BuildEvent::CompileFinished { .. }) => true,
            (BuildPhase::NeedLink, BuildEvent::LinkFinished { .. }) => true,
            _ => false,
        }
    }

    /// The transition relation: the next build state, and the
    /// deletions the host must perform, for one event.
    pub open spec fn step(self, ev: BuildEvent) -> (ShaderBuilder, Seq<DeleteCmd>) {
        match (self.phase, ev) {
            (BuildPhase::NeedProgram, BuildEvent::Created(ok)) => {
                if ok {
                    (
                        ShaderBuilder {
                            phase: BuildPhase::NeedVertexCreate,
                            program_live: true,
                            ..self
                        },
                        Seq::empty(),
                    )
                } else {
                    (
                        ShaderBuilder {
                            phase: BuildPhase::Failed,
                            failure: Some(GfxError::ProgramAllocation),
                            ..self
                        },
                        Seq::empty(),
                    )
                }
            },
            (BuildPhase::NeedVertexCreate, BuildEvent::Created(ok)) => {
                if ok {
                    (
                        ShaderBuilder {
                            phase: BuildPhase::NeedVertexCompile,
                            vertex_live: true,
                            ..self
                        },
                        Seq::empty(),
                    )
                } else {
                    (
                        ShaderBuilder {
                            phase: BuildPhase::Failed,
                            program_live: false,
                            failure: Some(GfxError::StageAllocation(Stage::Vertex)),
                            ..self
                        },
                        seq![DeleteCmd::DeleteProgram],
                    )
                }
            },
            (BuildPhase::NeedVertexCompile, BuildEvent::CompileFinished { ok, log }) => {
                if ok {
                    (
                        ShaderBuilder { phase: BuildPhase::NeedFragmentCreate, ..self },
                        Seq::empty(),
                    )
                } else {
                    (
                        ShaderBuilder {
                            phase: BuildPhase::Failed,
                            program_live: false,
                            vertex_live: false,
                            failure: Some(GfxError::ShaderCompile { stage: Stage::Vertex, log }),
                            ..self
                        },
                        seq![DeleteCmd::DeleteShader(Stage::Vertex), DeleteCmd::DeleteProgram],
                    )
                }
            },
            (BuildPhase::NeedFragmentCreate, BuildEvent::Created(ok)) => {
                if ok {
                    (
                        ShaderBuilder {
                            phase: BuildPhase::NeedFragmentCompile,
                            fragment_live: true,
                            ..self
                        },
                        Seq::empty(),
                    )
                } else {
                    (
                        ShaderBuilder {
                            phase: BuildPhase::Failed,
                            program_live: false,
                            vertex_live: false,
                            failure: Some(GfxError::StageAllocation(Stage::Fragment)),
                            ..self
                        },
                        seq![DeleteCmd::DeleteShader(Stage::Vertex), DeleteCmd::DeleteProgram],
                    )
                }
            },
            (BuildPhase::NeedFragmentCompile, BuildEvent::CompileFinished { ok, log }) => {
                if ok {
                    (ShaderBuilder { phase: BuildPhase::NeedLink, ..self }, Seq::empty())
                } else {
                    (
                        ShaderBuilder {
                            phase: BuildPhase::Failed,
                            program_live: false,
                            vertex_live: false,
                            fragment_live: false,
                            failure: Some(GfxError::ShaderCompile { stage: Stage::Fragment, log }),
                            ..self
                        },
                        seq![
                            DeleteCmd::DeleteShader(Stage::Vertex),
                            DeleteCmd::DeleteShader(Stage::Fragment),
                            DeleteCmd::DeleteProgram,
                        ],
                    )
                }
            },
            (BuildPhase::NeedLink, BuildEvent::LinkFinished { ok, log }) => {
                if ok {
                    // Linking copies what it needs: the stage objects
                    // are redundant now and are released either way.
                    (
                        ShaderBuilder {
                            phase: BuildPhase::Linked,
                            vertex_live: false,
                            fragment_live: false,
                            ..self
                        },
                        seq![
                            DeleteCmd::DeleteShader(Stage::Vertex),
                            DeleteCmd::DeleteShader(Stage::Fragment),
                        ],
                    )
                } else {
                    (
                        ShaderBuilder {
                            phase: BuildPhase::Failed,
                            program_live: false,
                            vertex_live: false,
                            fragment_live: false,
                            failure: Some(GfxError::ShaderLink { log }),
                            ..self
                        },
                        seq![
                            DeleteCmd::DeleteShader(Stage::Vertex),
                            DeleteCmd::DeleteShader(Stage::Fragment),
                            DeleteCmd::DeleteProgram,
                        ],
                    )
                }
            },
            _ => (self, Seq::empty()),
        }
    }

    /// What a well-formed build holds in each phase.  In particular:
    /// a failed build holds nothing, and a linked one only the
    /// program.
    pub open spec fn wf(self) -> bool {
        match self.phase {
            BuildPhase::NeedProgram => !self.program_live && !self.vertex_live
                && !self.fragment_live && self.failure is None,
            BuildPhase::NeedVertexCreate => self.program_live && !self.vertex_live
                && !self.fragment_live && self.failure is None,
            BuildPhase::NeedVertexCompile => self.program_live && self.vertex_live
                && !self.fragment_live && self.failure is None,
            BuildPhase::NeedFragmentCreate => self.program_live && self.vertex_live
                && !self.fragment_live && self.failure is None,
            BuildPhase::NeedFragmentCompile => self.program_live && self.vertex_live
                && self.fragment_live && self.failure is None,
            BuildPhase::NeedLink => self.program_live && self.vertex_live && self.fragment_live
                && self.failure is None,
            BuildPhase::Linked => self.program_live && !self.vertex_live && !self.fragment_live
                && self.failure is None,
            BuildPhase::Failed => !self.program_live && !self.vertex_live && !self.fragment_live
                && self.failure is Some,
        }
    }

    /// Starts a build.
    pub fn new() -> (b: ShaderBuilder)
        ensures
            b == ShaderBuilder::start_spec(),
            b.wf(),
    {
        ShaderBuilder {
            phase: BuildPhase::NeedProgram,
            program_live: false,
            vertex_live: false,
            fragment_live: false,
            failure: None,
        }
    }

    /// What the host must do next for this build.
    pub open spec fn next_action_spec(self) -> BuildAction {
        match self.phase {
            BuildPhase::NeedProgram => BuildAction::CreateProgram,
            BuildPhase::NeedVertexCreate => BuildAction::CreateShader(Stage::Vertex),
            BuildPhase::NeedVertexCompile => BuildAction::CompileShader(Stage::Vertex),
            BuildPhase::NeedFragmentCreate => BuildAction::CreateShader(Stage::Fragment),
            BuildPhase::NeedFragmentCompile => BuildAction::CompileShader(Stage::Fragment),
            BuildPhase::NeedLink => BuildAction::AttachAndLink,
            BuildPhase::Linked => BuildAction::Finish,
            BuildPhase::Failed => BuildAction::Abort,
        }
    }

    /// Tells the host what to do next.
    pub fn next_action(&self) -> (a: BuildAction)
        ensures
            a == self.next_action_spec(),
    {
        match self.phase {
            BuildPhase::NeedProgram => BuildAction::CreateProgram,
            BuildPhase::NeedVertexCreate => BuildAction::CreateShader(Stage::Vertex),
            BuildPhase::NeedVertexCompile => BuildAction::CompileShader(Stage::Vertex),
            BuildPhase::NeedFragmentCreate => BuildAction::CreateShader(Stage::Fragment),
            BuildPhase::NeedFragmentCompile => BuildAction::CompileShader(Stage::Fragment),
            BuildPhase::NeedLink => BuildAction::AttachAndLink,
            BuildPhase::Linked => BuildAction::Finish,
            BuildPhase::Failed => BuildAction::Abort,
        }
    }

    /// Absorbs one reported outcome: moves the build to its next
    /// state and returns the deletions the host must perform now.
    pub fn absorb(&mut self, ev: BuildEvent) -> (deletes: Vec<DeleteCmd>)
        requires
            old(self).expects(ev),
        ensures
            *final(self) == old(self).step(ev).0,
            deletes@ == old(self).step(ev).1,
    {
        match ev {
            BuildEvent::Created(ok) => {
                match self.phase {
                    BuildPhase::NeedProgram => {
                        if ok {
                            self.phase = BuildPhase::NeedVertexCreate;
                            self.program_live = true;
                            Vec::new()
                        } else {
                            self.phase = BuildPhase::Failed;
                            self.failure = Some(GfxError::ProgramAllocation);
                            Vec::new()
                        }
                    },
                    BuildPhase::NeedVertexCreate => {
                        if ok {
                            self.phase = BuildPhase::NeedVertexCompile;
                            self.vertex_live = true;
                            Vec::new()
                        } else {
                            self.phase = BuildPhase::Failed;
                            self.program_live = false;
                            self.failure = Some(GfxError::StageAllocation(Stage::Vertex));
                            let mut d: Vec<DeleteCmd> = Vec::new();
                            d.push(DeleteCmd::DeleteProgram);
                            d
                        }
                    },
                    BuildPhase::NeedFragmentCreate => {
                        if ok {
                            self.phase = BuildPhase::NeedFragmentCompile;
                            self.fragment_live = true;
                            Vec::new()
                        } else {
                            self.phase = BuildPhase::Failed;
                            self.program_live = false;
                            self.vertex_live = false;
                            self.failure = Some(GfxError::StageAllocation(Stage::Fragment));
                            let mut d: Vec<DeleteCmd> = Vec::new();
                            d.push(DeleteCmd::DeleteShader(Stage::Vertex));
                            d.push(DeleteCmd::DeleteProgram);
                            d
                        }
                    },
                    _ => {
                        proof {
                            assert(false);
                        }
                        Vec::new()
                    },
                }
            },
            BuildEvent::CompileFinished { ok, log } => {
                match self.phase {
                    BuildPhase::NeedVertexCompile => {
                        if ok {
                            self.phase = BuildPhase::NeedFragmentCreate;
                            Vec::new()
                        } else {
                            self.phase = BuildPhase::Failed;
                            self.program_live = false;
                            self.vertex_live = false;
                            self.failure = Some(
                                GfxError::ShaderCompile { stage: Stage::Vertex, log },
                            );
                            let mut d: Vec<DeleteCmd> = Vec::new();
                            d.push(DeleteCmd::DeleteShader(Stage::Vertex));
                            d.push(DeleteCmd::DeleteProgram);
                            d
                        }
                    },
                    BuildPhase::NeedFragmentCompile => {
                        if ok {
                            self.phase = BuildPhase::NeedLink;
                            Vec::new()
                        } else {
                            self.phase = BuildPhase::Failed;
                            self.program_live = false;
                            self.vertex_live = false;
                            self.fragment_live = false;
                            self.failure = Some(
                                GfxError::ShaderCompile { stage: Stage::Fragment, log },
                            );
                            let mut d: Vec<DeleteCmd> = Vec::new();
                            d.push(DeleteCmd::DeleteShader(Stage::Vertex));
                            d.push(DeleteCmd::DeleteShader(Stage::Fragment));
                            d.push(DeleteCmd::DeleteProgram);
                            d
                        }
                    },
                    _ => {
                        proof {
                            assert(false);
                        }
                        Vec::new()
                    },
                }
            },
            BuildEvent::LinkFinished { ok, log } => {
                match self.phase {
                    BuildPhase::NeedLink => {
                        if ok {
                            self.phase = BuildPhase::Linked;
                            self.vertex_live = false;
                            self.fragment_live = false;
                            let mut d: Vec<DeleteCmd> = Vec::new();
                            d.push(DeleteCmd::DeleteShader(Stage::Vertex));
                            d.push(DeleteCmd::DeleteShader(Stage::Fragment));
                            d
                        } else {
                            self.phase = BuildPhase::Failed;
                            self.program_live = false;
                            self.vertex_live = false;
                            self.fragment_live = false;
                            self.failure = Some(GfxError::ShaderLink { log });
                            let mut d: Vec<DeleteCmd> = Vec::new();
                            d.push(DeleteCmd::DeleteShader(Stage::Vertex));
                            d.push(DeleteCmd::DeleteShader(Stage::Fragment));
                            d.push(DeleteCmd::DeleteProgram);
                            d
                        }
                    },
                    _ => {
                        proof {
                            assert(false);
                        }
                        Vec::new()
                    },
                }
            },
        }
    }

    /// Closes a finished build: the shader on success, the recorded
    /// error on failure.
    pub fn finish(self, program: u32, uniforms: Vec<UniformName>) -> (r: Result<Shader, GfxError>)
        requires
            self.phase is Linked || self.phase is Failed,
            self.phase is Failed ==> self.failure is Some,
        ensures
            self.phase is Linked ==> r == Ok::<Shader, GfxError>(Shader { program, uniforms }),
            self.phase is Failed ==> r == Err::<Shader, GfxError>(self.failure->0),
    {
        match self.phase {
            BuildPhase::Linked => Ok(Shader { program, uniforms }),
            _ => {
                match self.failure {
                    Some(e) => Err(e),
                    None => {
                        proof {
                            assert(false);
                        }
                        Err(GfxError::ProgramAllocation)
                    },
                }
            },
        }
    }

    /// One step keeps a build well formed.
    pub proof fn lemma_step_preserves_wf(self, ev: BuildEvent)
        requires
            self.wf(),
            self.expects(ev),
        ensures
            self.step(ev).0.wf(),
    {
    }

    /// A build driven from the start by any sequence of outcomes,
    /// with outcomes it does not expect ignored.
    pub open spec fn run(self, evs: Seq<BuildEvent>) -> ShaderBuilder
        decreases evs.len(),
    {
        if evs.len() == 0 {
            self
        } else if self.expects(evs[0]) {
            self.step(evs[0]).0.run(evs.drop_first())
        } else {
            self.run(evs.drop_first())
        }
    }

    /// Any run of a well-formed build stays well formed.
    pub proof fn lemma_run_preserves_wf(self, evs: Seq<BuildEvent>)
        requires
            self.wf(),
        ensures
            self.run(evs).wf(),
        decreases evs.len(),
    {
        if evs.len() == 0 {
        } else if self.expects(evs[0]) {
            self.lemma_step_preserves_wf(evs[0]);
            self.step(evs[0]).0.lemma_run_preserves_wf(evs.drop_first());
        } else {
            self.lemma_run_preserves_wf(evs.drop_first());
        }
    }

    /// However a build fails, it leaks nothing: whatever outcomes the
    /// context reported, a build that ends failed has released its
    /// program and both stages, so repeated construction attempts
    /// cannot exhaust resources.
    pub proof fn lemma_failed_build_releases_everything(evs: Seq<BuildEvent>)
        ensures
            ({
                let end = ShaderBuilder::start_spec().run(evs);
                end.phase is Failed ==> (!end.program_live && !end.vertex_live
                    && !end.fragment_live && end.failure is Some)
            }),
    {
        ShaderBuilder::start_spec().lemma_run_preserves_wf(evs);
    }
}

impl Shader {
    /// Whether the linked program kept this uniform active.
    pub fn has_uniform(&self, name: UniformName) -> (r: bool)
        ensures
            r == self.uniforms@.contains(name),
    {
        let mut i: usize = 0;
        while i < self.uniforms.len()
            invariant
                i <= self.uniforms@.len(),
                forall|j: int| 0 <= j < i ==> self.uniforms@[j] != name,
            decreases self.uniforms@.len() - i,
        {
            if self.uniforms[i] == name {
                assert(self.uniforms@[i as int] == name);
                return true;
            }
            i += 1;
        }
        false
    }

    /// Makes this pipeline the context's active one; the last
    /// activation wins.
    pub fn use_shader(&self, slot: &mut ActivePipeline)
        ensures
            final(slot).active == Some(self.program),
    {
        slot.active = Some(self.program);
    }

    /// An upload of a matrix uniform, by name: the command on
    /// success, and exactly `UnknownUniform` when the linked program
    /// has no such active uniform.
    pub fn set_mat4_f32(&self, name: UniformName, value: Mat4Expr) -> (r: Result<
        FrameCmd,
        GfxError,
    >)
        ensures
            self.uniforms@.contains(name) ==> r == Ok::<FrameCmd, GfxError>(
                FrameCmd::SetMat4 { name, value },
            ),
            !self.uniforms@.contains(name) ==> r == Err::<FrameCmd, GfxError>(
                GfxError::UnknownUniform { name },
            ),
    {
        if self.has_uniform(name) {
            Ok(FrameCmd::SetMat4 { name, value })
        } else {
            Err(GfxError::UnknownUniform { name })
        }
    }

    /// An upload of a vector uniform, by name; errors as `set_mat4_f32`.
    pub fn set_vec3_f32(&self, name: UniformName, value: Vec3Milli) -> (r: Result<
        FrameCmd,
        GfxError,
    >)
        ensures
            self.uniforms@.contains(name) ==> r == Ok::<FrameCmd, GfxError>(
                FrameCmd::SetVec3 { name, value },
            ),
            !self.uniforms@.contains(name) ==> r == Err::<FrameCmd, GfxError>(
                GfxError::UnknownUniform { name },
            ),
    {
        if self.has_uniform(name) {
            Ok(FrameCmd::SetVec3 { name, value })
        } else {
            Err(GfxError::UnknownUniform { name })
        }
    }

    /// An upload of an integer uniform, by name; errors as `set_mat4_f32`.
    pub fn set_i32(&self, name: UniformName, value: i32) -> (r: Result<FrameCmd, GfxError>)
        ensures
            self.uniforms@.contains(name) ==> r == Ok::<FrameCmd, GfxError>(
                FrameCmd::SetInt { name, value },
            ),
            !self.uniforms@.contains(name) ==> r == Err::<FrameCmd, GfxError>(
                GfxError::UnknownUniform { name },
            ),
    {
        if self.has_uniform(name) {
            Ok(FrameCmd::SetInt { name, value })
        } else {
            Err(GfxError::UnknownUniform { name })
        }
    }
}

} // verus!
