//! Context acquisition and the construction flow: the exact error
//! for each missing link, and that a failed acquisition allocates
//! nothing.

use parametric_surfaces::context::{init_gl_context, DepthFunc, DomProbe, GlContextState};
use parametric_surfaces::gl_types::{ContextAcquisitionError, GfxError};
use parametric_surfaces::init::{InitAction, InitEvent, InitFlow, InitPhase, ShapeKind};
use parametric_surfaces::shapes::Cube;

fn full_probe() -> DomProbe {
    DomProbe { window: true, document: true, element_found: true, is_canvas: true, context_granted: true }
}

#[test]
fn acquisition_success_sets_fixed_state() {
    let r = init_gl_context(&full_probe());
    assert_eq!(
        r,
        Ok(GlContextState { depth_test: true, depth_func: DepthFunc::LessOrEqual })
    );
}

#[test]
fn acquisition_reports_the_first_missing_link() {
    let mut p = full_probe();
    p.window = false;
    assert_eq!(init_gl_context(&p), Err(ContextAcquisitionError::MissingWindow));
    let mut p = full_probe();
    p.document = false;
    assert_eq!(init_gl_context(&p), Err(ContextAcquisitionError::MissingDocument));
    let mut p = full_probe();
    p.element_found = false;
    assert_eq!(init_gl_context(&p), Err(ContextAcquisitionError::MissingElement));
    let mut p = full_probe();
    p.is_canvas = false;
    assert_eq!(init_gl_context(&p), Err(ContextAcquisitionError::NotACanvas));
    let mut p = full_probe();
    p.context_granted = false;
    assert_eq!(init_gl_context(&p), Err(ContextAcquisitionError::ContextRefused));
}

#[test]
fn missing_canvas_fails_construction_with_no_allocation() {
    // A canvas id that resolves to nothing: construction fails with
    // a context acquisition error and no resource was allocated.
    let mut probe = full_probe();
    probe.element_found = false;
    let outcome = init_gl_context(&probe);
    let mut flow = InitFlow::start(ShapeKind::Cube);
    assert_eq!(flow.next_action(), InitAction::ResolveContext);
    flow.absorb(InitEvent::ContextResolved(outcome));
    assert_eq!(flow.phase, InitPhase::Failed);
    assert_eq!(flow.buffers_done, 0);
    assert!(!flow.texture_live);
    assert!(flow.context.is_none());
    assert!(flow.shader.is_none());
    let err = Cube::try_new(flow).unwrap_err();
    assert_eq!(
        err,
        GfxError::ContextAcquisition(ContextAcquisitionError::MissingElement)
    );
}

#[test]
fn cube_construction_happy_path() {
    let mut flow = InitFlow::start(ShapeKind::Cube);
    assert_eq!(flow.next_action(), InitAction::ResolveContext);
    flow.absorb(InitEvent::ContextResolved(init_gl_context(&full_probe())));
    assert_eq!(flow.next_action(), InitAction::BuildPipeline);
    let shader = parametric_surfaces::shader::Shader { program: 4, uniforms: Vec::new() };
    flow.absorb(InitEvent::PipelineBuilt(Ok(shader)));
    match flow.next_action() {
        InitAction::UploadBuffer(upload) => {
            assert_eq!(
                upload.attribute,
                parametric_surfaces::gl_types::AttributeName::CubePosition
            );
            assert_eq!(upload.components, 3);
        },
        other => panic!("expected a buffer upload, got {:?}", other),
    }
    flow.absorb(InitEvent::BufferCreated(true));
    assert_eq!(flow.next_action(), InitAction::Done);
    let cube = Cube::try_new(flow).unwrap();
    assert_eq!(cube.shader.program, 4);
    assert!(cube.context.depth_test);
}

#[test]
fn buffer_allocation_failure_aborts_construction() {
    let mut flow = InitFlow::start(ShapeKind::Torus);
    flow.absorb(InitEvent::ContextResolved(init_gl_context(&full_probe())));
    let shader = parametric_surfaces::shader::Shader { program: 9, uniforms: Vec::new() };
    flow.absorb(InitEvent::PipelineBuilt(Ok(shader)));
    flow.absorb(InitEvent::BufferCreated(true));
    flow.absorb(InitEvent::BufferCreated(false));
    assert_eq!(flow.phase, InitPhase::Failed);
    assert_eq!(flow.failure, Some(GfxError::BufferAllocation));
}

#[test]
fn texture_allocation_failure_aborts_construction() {
    let mut flow = InitFlow::start(ShapeKind::Triforce);
    flow.absorb(InitEvent::ContextResolved(init_gl_context(&full_probe())));
    let shader = parametric_surfaces::shader::Shader { program: 2, uniforms: Vec::new() };
    flow.absorb(InitEvent::PipelineBuilt(Ok(shader)));
    flow.absorb(InitEvent::BufferCreated(true));
    flow.absorb(InitEvent::BufferCreated(true));
    flow.absorb(InitEvent::BufferCreated(true));
    flow.absorb(InitEvent::TextureCreated(false));
    assert_eq!(flow.phase, InitPhase::Failed);
    assert_eq!(flow.failure, Some(GfxError::TextureAllocation));
}

#[test]
fn triforce_construction_wants_a_texture() {
    let mut flow = InitFlow::start(ShapeKind::Triforce);
    flow.absorb(InitEvent::ContextResolved(init_gl_context(&full_probe())));
    let shader = parametric_surfaces::shader::Shader { program: 2, uniforms: Vec::new() };
    flow.absorb(InitEvent::PipelineBuilt(Ok(shader)));
    flow.absorb(InitEvent::BufferCreated(true));
    flow.absorb(InitEvent::BufferCreated(true));
    flow.absorb(InitEvent::BufferCreated(true));
    assert_eq!(flow.next_action(), InitAction::CreateTexture);
    flow.absorb(InitEvent::TextureCreated(true));
    assert_eq!(flow.phase, InitPhase::Ready);
    assert!(flow.texture_live);
}
