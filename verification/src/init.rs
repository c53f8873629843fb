//! Renderer construction.
//!
//! Every shape renderer is built the same way: acquire the context,
//! build the shader pipeline, upload the static attribute buffers
//! one by one, and, for the textured shape, create its texture.
//! `InitFlow` decides each step from what the host reports; any
//! failure aborts construction entirely, so no partially usable
//! renderer ever comes out, and a failure while acquiring the
//! context leaves nothing allocated at all.

use crate::context::GlContextState;
use crate::gl_types::{AttributeName, ContextAcquisitionError, GfxError};
use crate::shader::Shader;
use vstd::prelude::*;

verus! {

/// The three shapes this library renders.
#[derive(Clone, Copy, Debug, PartialEq, Eq, Structural)]
pub enum ShapeKind {
    Cube,
    Torus,
    Triforce,
}

/// Which static table a buffer upload carries.
#[derive(Clone, Copy, Debug, PartialEq, Eq, Structural)]
pub enum BufferData {
    /// The cube's wireframe endpoint table.
    CubeWireframe,
    /// The torus positions: the parametric equations over the grid.
    TorusPositions,
    /// The torus colours: each position shifted by half a unit.
    TorusColors,
    /// The triforce's interleaved position-and-normal table.
    TriforceInterleaved,
    /// The triforce's texture-coordinate table.
    TriforceTexCoords,
}

/// One static attribute buffer upload: which table to upload and how
/// the named attribute walks it (components per vertex, stride and
/// offset in bytes; a zero stride means tightly packed).
#[derive(Clone, Copy, Debug, PartialEq, Eq, Structural)]
pub struct BufferUpload {
    pub attribute: AttributeName,
    pub components: u32,
    pub stride_bytes: u32,
    pub offset_bytes: u32,
    pub data: BufferData,
}

/// The buffer uploads of one shape, in upload order.
pub open spec fn buffer_plan_spec(shape: ShapeKind) -> Seq<BufferUpload> {
    match shape {
        ShapeKind::Cube => seq![
            BufferUpload {
                attribute: AttributeName::CubePosition,
                components: 3,
                stride_bytes: 0,
                offset_bytes: 0,
                data: BufferData::CubeWireframe,
            },
        ],
        ShapeKind::Torus => seq![
            BufferUpload {
                attribute: AttributeName::Position,
                components: 3,
                stride_bytes: 0,
                offset_bytes: 0,
                data: BufferData::TorusPositions,
            },
            BufferUpload {
                attribute: AttributeName::VertexColor,
                components: 3,
                stride_bytes: 0,
                offset_bytes: 0,
                data: BufferData::TorusColors,
            },
        ],
        ShapeKind::Triforce => seq![
            BufferUpload {
                attribute: AttributeName::Position,
                components: 3,
                stride_bytes: 24,
                offset_bytes: 0,
                data: BufferData::TriforceInterleaved,
            },
            BufferUpload {
                attribute: AttributeName::Normal,
                components: 3,
                stride_bytes: 24,
                offset_bytes: 12,
                data: BufferData::TriforceInterleaved,
            },
            BufferUpload {
                attribute: AttributeName::TexCoord,
                components: 2,
                stride_bytes: 0,
                offset_bytes: 0,
                data: BufferData::TriforceTexCoords,
            },
        ],
    }
}

/// How many buffers a shape uploads.
pub open spec fn plan_len_spec(shape: ShapeKind) -> nat {
    buffer_plan_spec(shape).len()
}

/// Whether a shape loads a texture.
pub open spec fn wants_texture(shape: ShapeKind) -> bool {
    shape is Triforce
}

/// The buffer uploads of one shape, in upload order.
pub fn buffer_plan(shape: ShapeKind) -> (plan: Vec<BufferUpload>)
    ensures
        plan@ == buffer_plan_spec(shape),
{
    let mut plan: Vec<BufferUpload> = Vec::new();
    match shape {
        ShapeKind::Cube => {
            plan.push(
                BufferUpload {
                    attribute: AttributeName::CubePosition,
                    components: 3,
                    stride_bytes: 0,
                    offset_bytes: 0,
                    data: BufferData::CubeWireframe,
                },
            );
        },
        ShapeKind::Torus => {
            plan.push(
                BufferUpload {
                    attribute: AttributeName::Position,
                    components: 3,
                    stride_bytes: 0,
                    offset_bytes: 0,
                    data: BufferData::TorusPositions,
                },
            );
            plan.push(
                BufferUpload {
                    attribute: AttributeName::VertexColor,
                    components: 3,
                    stride_bytes: 0,
                    offset_bytes: 0,
                    data: BufferData::TorusColors,
                },
            );
        },
        ShapeKind::Triforce => {
            plan.push(
                BufferUpload {
                    attribute: AttributeName::Position,
                    components: 3,
                    stride_bytes: 24,
                    offset_bytes: 0,
                    data: BufferData::TriforceInterleaved,
                },
            );
            plan.push(
                BufferUpload {
                    attribute: AttributeName::Normal,
                    components: 3,
                    stride_bytes: 24,
                    offset_bytes: 12,
                    data: BufferData::TriforceInterleaved,
                },
            );
            plan.push(
                BufferUpload {
                    attribute: AttributeName::TexCoord,
                    components: 2,
                    stride_bytes: 0,
                    offset_bytes: 0,
                    data: BufferData::TriforceTexCoords,
                },
            );
        },
    }
    proof {
        assert(plan@ =~= buffer_plan_spec(shape));
    }
    plan
}

/// Where a construction stands: which outcome it waits for next.
#[derive(Clone, Copy, Debug, PartialEq, Eq, Structural)]
pub enum InitPhase {
    /// Waiting for context acquisition.
    NeedContext,
    /// Waiting for the pipeline build.
    NeedPipeline,
    /// Waiting for the next buffer upload.
    NeedBuffer,
    /// Waiting for the texture allocation.
    NeedTexture,
    /// Construction succeeded.
    Ready,
    /// Construction failed and was aborted entirely.
    Failed,
}

/// What the host reports back during construction.
#[derive(Debug, PartialEq, Eq)]
pub enum InitEvent {
    /// The outcome of context acquisition.
    ContextResolved(Result<GlContextState, ContextAcquisitionError>),
    /// The outcome of the whole pipeline build dialogue.
    PipelineBuilt(Result<Shader, GfxError>),
    /// Whether the next buffer of the plan was allocated (and, with
    /// it, uploaded and pointed at its attribute).
    BufferCreated(bool),
    /// Whether the texture object was allocated.
    TextureCreated(bool),
}

/// What the host must do next for a construction.
#[derive(Clone, Copy, Debug, PartialEq, Eq, Structural)]
pub enum InitAction {
    /// Probe the chain from window to context and apply the fixed
    /// initial context state.
    ResolveContext,
    /// Run the shader build dialogue on this shape's sources.
    BuildPipeline,
    /// Allocate a buffer, upload this table and point the named
    /// attribute at it.
    UploadBuffer(BufferUpload),
    /// Allocate the texture, fill in the placeholder pixel and start
    /// the asynchronous image decode.
    CreateTexture,
    /// Construction succeeded; assemble the renderer.
    Done,
    /// Construction failed; report the error.
    Aborted,
}

/// A renderer construction in progress.
#[derive(Clone, Debug, PartialEq, Eq)]
pub struct InitFlow {
    pub shape: ShapeKind,
    pub phase: InitPhase,
    /// Buffers of the plan created and uploaded so far.
    pub buffers_done: usize,
    /// Whether the texture object has been created.
    pub texture_live: bool,
    pub context: Option<GlContextState>,
    pub shader: Option<Shader>,
    pub failure: Option<GfxError>,
}

impl InitFlow {
    /// A construction that has not asked the host for anything yet.
    pub open spec fn start_spec(shape: ShapeKind) -> InitFlow {
        InitFlow {
            shape,
            phase: InitPhase::NeedContext,
            buffers_done: 0,
            texture_live: false,
            context: None,
            shader: None,
            failure: None,
        }
    }

    /// Which event a construction in this phase waits for.
    pub open spec fn expects(self, ev: InitEvent) -> bool {
        match (self.phase, ev) {
            (InitPhase::NeedContext, InitEvent::ContextResolved(_)) => true,
            (InitPhase::NeedPipeline, InitEvent::PipelineBuilt(outcome)) => !(outcome
                matches Err(GfxError::ContextAcquisition(_))),
            (InitPhase::NeedBuffer, InitEvent::BufferCreated(_)) => true,
            (InitPhase::NeedTexture, InitEvent::TextureCreated(_)) => true,
            _ => false,
        }
    }

    /// The transition relation of construction.
    pub open spec fn step(self, ev: InitEvent) -> InitFlow {
        match (self.phase, ev) {
            (InitPhase::NeedContext, InitEvent::ContextResolved(outcome)) => match outcome {
                Ok(ctx) => InitFlow {
                    phase: InitPhase::NeedPipeline,
                    context: Some(ctx),
                    ..self
                },
                Err(e) => InitFlow {
                    phase: InitPhase::Failed,
                    failure: Some(GfxError::ContextAcquisition(e)),
                    ..self
                },
            },
            (InitPhase::NeedPipeline, InitEvent::PipelineBuilt(outcome)) => match outcome {
                Ok(shader) => InitFlow {
                    phase: InitPhase::NeedBuffer,
                    shader: Some(shader),
                    ..self
                },
                Err(e) => InitFlow { phase: InitPhase::Failed, failure: Some(e), ..self },
            },
            (InitPhase::NeedBuffer, InitEvent::BufferCreated(ok)) => {
                if !ok {
                    InitFlow {
                        phase: InitPhase::Failed,
                        failure: Some(GfxError::BufferAllocation),
                        ..self
                    }
                } else if self.buffers_done + 1 == plan_len_spec(self.shape) {
                    if wants_texture(self.shape) {
                        InitFlow {
                            phase: InitPhase::NeedTexture,
                            buffers_done: (self.buffers_done + 1) as usize,
                            ..self
                        }
                    } else {
                        InitFlow {
                            phase: InitPhase::Ready,
                            buffers_done: (self.buffers_done + 1) as usize,
                            ..self
                        }
                    }
                } else {
                    InitFlow { buffers_done: (self.buffers_done + 1) as usize, ..self }
                }
            },
            (InitPhase::NeedTexture, InitEvent::TextureCreated(ok)) => {
                if ok {
                    InitFlow { phase: InitPhase::Ready, texture_live: true, ..self }
                } else {
                    InitFlow {
                        phase: InitPhase::Failed,
                        failure: Some(GfxError::TextureAllocation),
                        ..self
                    }
                }
            },
            _ => self,
        }
    }

    /// What a well-formed construction holds in each phase.  Before
    /// the context resolves nothing is allocated, so a context
    /// failure — the only way to fail that early — leaves nothing
    /// behind.
    pub open spec fn wf(self) -> bool {
        match self.phase {
            InitPhase::NeedContext => self.buffers_done == 0 && !self.texture_live
                && self.context is None && self.shader is None && self.failure is None,
            InitPhase::NeedPipeline => self.buffers_done == 0 && !self.texture_live
                && self.context is Some && self.shader is None && self.failure is None,
            InitPhase::NeedBuffer => self.buffers_done < plan_len_spec(self.shape)
                && !self.texture_live && self.context is Some && self.shader is Some
                && self.failure is None,
            InitPhase::NeedTexture => self.buffers_done == plan_len_spec(self.shape)
                && wants_texture(self.shape) && !self.texture_live && self.context is Some
                && self.shader is Some && self.failure is None,
            InitPhase::Ready => self.buffers_done == plan_len_spec(self.shape)
                && self.texture_live == wants_texture(self.shape) && self.context is Some
                && self.shader is Some && self.failure is None,
            InitPhase::Failed => self.failure is Some && (self.failure matches Some(
                GfxError::ContextAcquisition(_),
            ) ==> self.buffers_done == 0 && !self.texture_live && self.context is None
                && self.shader is None),
        }
    }

    /// Starts a construction.
    pub fn start(shape: ShapeKind) -> (flow: InitFlow)
        ensures
            flow == InitFlow::start_spec(shape),
            flow.wf(),
    {
        InitFlow {
            shape,
            phase: InitPhase::NeedContext,
            buffers_done: 0,
            texture_live: false,
            context: None,
            shader: None,
            failure: None,
        }
    }

    /// What the host must do next for this construction.
    pub open spec fn next_action_spec(self) -> InitAction {
        match self.phase {
            InitPhase::NeedContext => InitAction::ResolveContext,
            InitPhase::NeedPipeline => InitAction::BuildPipeline,
            InitPhase::NeedBuffer => InitAction::UploadBuffer(
                buffer_plan_spec(self.shape)[self.buffers_done as int],
            ),
            InitPhase::NeedTexture => InitAction::CreateTexture,
            InitPhase::Ready => InitAction::Done,
            InitPhase::Failed => InitAction::Aborted,
        }
    }

    /// Tells the host what to do next.
    pub fn next_action(&self) -> (a: InitAction)
        requires
            self.wf(),
        ensures
            a == self.next_action_spec(),
    {
        match self.phase {
            InitPhase::NeedContext => InitAction::ResolveContext,
            InitPhase::NeedPipeline => InitAction::BuildPipeline,
            InitPhase::NeedBuffer => {
                let plan = buffer_plan(self.shape);
                InitAction::UploadBuffer(plan[self.buffers_done])
            },
            InitPhase::NeedTexture => InitAction::CreateTexture,
            InitPhase::Ready => InitAction::Done,
            InitPhase::Failed => InitAction::Aborted,
        }
    }

    /// Absorbs one reported outcome and moves the construction on.
    pub fn absorb(&mut self, ev: InitEvent)
        requires
            old(self).wf(),
            old(self).expects(ev),
        ensures
            *final(self) == old(self).step(ev),
    {
        match ev {
            InitEvent::ContextResolved(outcome) => {
                match outcome {
                    Ok(ctx) => {
                        self.phase = InitPhase::NeedPipeline;
                        self.context = Some(ctx);
                    },
                    Err(e) => {
                        self.phase = InitPhase::Failed;
                        self.failure = Some(GfxError::ContextAcquisition(e));
                    },
                }
            },
            InitEvent::PipelineBuilt(outcome) => {
                match outcome {
                    Ok(shader) => {
                        self.phase = InitPhase::NeedBuffer;
                        self.shader = Some(shader);
                    },
                    Err(e) => {
                        self.phase = InitPhase::Failed;
                        self.failure = Some(e);
                    },
                }
            },
            InitEvent::BufferCreated(ok) => {
                if !ok {
                    self.phase = InitPhase::Failed;
                    self.failure = Some(GfxError::BufferAllocation);
                } else {
                    let total: usize = match self.shape {
                        ShapeKind::Cube => 1,
                        ShapeKind::Torus => 2,
                        ShapeKind::Triforce => 3,
                    };
                    proof {
                        assert(total == plan_len_spec(self.shape));
                        assert(self.buffers_done < 3);
                    }
                    self.buffers_done = self.buffers_done + 1;
                    if self.buffers_done == total {
                        if matches!(self.shape, ShapeKind::Triforce) {
                            self.phase = InitPhase::NeedTexture;
                        } else {
                            self.phase = InitPhase::Ready;
                        }
                    }
                }
            },
            InitEvent::TextureCreated(ok) => {
                if ok {
                    self.phase = InitPhase::Ready;
                    self.texture_live = true;
                } else {
                    self.phase = InitPhase::Failed;
                    self.failure = Some(GfxError::TextureAllocation);
                }
            },
        }
    }

    /// One step keeps a construction well formed.
    pub proof fn lemma_step_preserves_wf(self, ev: InitEvent)
        requires
            self.wf(),
            self.expects(ev),
        ensures
            self.step(ev).wf(),
    {
        assert(plan_len_spec(ShapeKind::Cube) == 1);
        assert(plan_len_spec(ShapeKind::Torus) == 2);
        assert(plan_len_spec(ShapeKind::Triforce) == 3);
    }

    /// A construction driven from the start by any sequence of
    /// outcomes, with outcomes it does not expect ignored.
    pub open spec fn run(self, evs: Seq<InitEvent>) -> InitFlow
        decreases evs.len(),
    {
        if evs.len() == 0 {
            self
        } else if self.expects(evs[0]) {
            self.step(evs[0]).run(evs.drop_first())
        } else {
            self.run(evs.drop_first())
        }
    }

    /// Any run of a well-formed construction stays well formed.
    pub proof fn lemma_run_preserves_wf(self, evs: Seq<InitEvent>)
        requires
            self.wf(),
        ensures
            self.run(evs).wf(),
        decreases evs.len(),
    {
        if evs.len() == 0 {
        } else if self.expects(evs[0]) {
            self.lemma_step_preserves_wf(evs[0]);
            self.step(evs[0]).lemma_run_preserves_wf(evs.drop_first());
        } else {
            self.lemma_run_preserves_wf(evs.drop_first());
        }
    }

    /// A construction that fails because the canvas id did not
    /// resolve — whatever outcomes the host reported before or after
    /// — has allocated nothing: no buffer, no texture, no pipeline,
    /// no context.
    pub proof fn lemma_context_failure_allocates_nothing(shape: ShapeKind, evs: Seq<InitEvent>)
        ensures
            ({
                let end = InitFlow::start_spec(shape).run(evs);
                end.failure matches Some(GfxError::ContextAcquisition(_)) ==> (end.phase
                    is Failed && end.buffers_done == 0 && !end.texture_live && end.context is None
                    && end.shader is None)
            }),
    {
        InitFlow::start_spec(shape).lemma_run_preserves_wf(evs);
        let end = InitFlow::start_spec(shape).run(evs);
        if end.failure matches Some(GfxError::ContextAcquisition(_)) {
            assert(end.failure is Some);
        }
    }
}

} // verus!
