//! The shader build dialogue: the happy path, each failure path with
//! its exact error, and leak-free cleanup on every failure.

use parametric_surfaces::gl_types::{GfxError, Stage, UniformName};
use parametric_surfaces::shader::{
    ActivePipeline, BuildAction, BuildEvent, DeleteCmd, ShaderBuilder,
};

fn ok_compile() -> BuildEvent {
    BuildEvent::CompileFinished { ok: true, log: String::new() }
}

#[test]
fn build_happy_path() {
    let mut b = ShaderBuilder::new();
    assert_eq!(b.next_action(), BuildAction::CreateProgram);
    assert!(b.absorb(BuildEvent::Created(true)).is_empty());
    assert_eq!(b.next_action(), BuildAction::CreateShader(Stage::Vertex));
    assert!(b.absorb(BuildEvent::Created(true)).is_empty());
    assert_eq!(b.next_action(), BuildAction::CompileShader(Stage::Vertex));
    assert!(b.absorb(ok_compile()).is_empty());
    assert_eq!(b.next_action(), BuildAction::CreateShader(Stage::Fragment));
    assert!(b.absorb(BuildEvent::Created(true)).is_empty());
    assert_eq!(b.next_action(), BuildAction::CompileShader(Stage::Fragment));
    assert!(b.absorb(ok_compile()).is_empty());
    assert_eq!(b.next_action(), BuildAction::AttachAndLink);
    let deletes = b.absorb(BuildEvent::LinkFinished { ok: true, log: String::new() });
    // Linking copies what it needs: both stages are released.
    assert_eq!(
        deletes,
        vec![
            DeleteCmd::DeleteShader(Stage::Vertex),
            DeleteCmd::DeleteShader(Stage::Fragment),
        ]
    );
    assert_eq!(b.next_action(), BuildAction::Finish);
    assert!(b.program_live);
    assert!(!b.vertex_live);
    assert!(!b.fragment_live);
    let shader = b
        .finish(7, vec![UniformName::Model, UniformName::View, UniformName::Projection])
        .unwrap();
    assert_eq!(shader.program, 7);
    assert!(shader.has_uniform(UniformName::View));
    assert!(!shader.has_uniform(UniformName::Color));
}

fn run_vertex_compile_failure() -> ShaderBuilder {
    let mut b = ShaderBuilder::new();
    b.absorb(BuildEvent::Created(true));
    b.absorb(BuildEvent::Created(true));
    let deletes = b.absorb(BuildEvent::CompileFinished {
        ok: false,
        log: String::from("syntax error"),
    });
    assert_eq!(
        deletes,
        vec![DeleteCmd::DeleteShader(Stage::Vertex), DeleteCmd::DeleteProgram]
    );
    b
}

#[test]
fn vertex_compile_failure_reports_stage_and_log() {
    let b = run_vertex_compile_failure();
    assert_eq!(b.next_action(), BuildAction::Abort);
    let err = b.finish(0, Vec::new()).unwrap_err();
    assert_eq!(
        err,
        GfxError::ShaderCompile { stage: Stage::Vertex, log: String::from("syntax error") }
    );
}

#[test]
fn failed_builds_leak_nothing_and_can_repeat() {
    // Two identical failing construction attempts: each releases
    // everything it allocated, so repetition exhausts nothing.
    for _ in 0..2 {
        let b = run_vertex_compile_failure();
        assert!(!b.program_live);
        assert!(!b.vertex_live);
        assert!(!b.fragment_live);
    }
}

#[test]
fn fragment_compile_failure_releases_both_stages() {
    let mut b = ShaderBuilder::new();
    b.absorb(BuildEvent::Created(true));
    b.absorb(BuildEvent::Created(true));
    b.absorb(ok_compile());
    b.absorb(BuildEvent::Created(true));
    let deletes = b.absorb(BuildEvent::CompileFinished { ok: false, log: String::from("bad") });
    assert_eq!(
        deletes,
        vec![
            DeleteCmd::DeleteShader(Stage::Vertex),
            DeleteCmd::DeleteShader(Stage::Fragment),
            DeleteCmd::DeleteProgram,
        ]
    );
    assert!(!b.program_live && !b.vertex_live && !b.fragment_live);
    let err = b.finish(0, Vec::new()).unwrap_err();
    assert_eq!(err, GfxError::ShaderCompile { stage: Stage::Fragment, log: String::from("bad") });
}

#[test]
fn link_failure_reports_log_and_releases_everything() {
    let mut b = ShaderBuilder::new();
    b.absorb(BuildEvent::Created(true));
    b.absorb(BuildEvent::Created(true));
    b.absorb(ok_compile());
    b.absorb(BuildEvent::Created(true));
    b.absorb(ok_compile());
    let deletes = b.absorb(BuildEvent::LinkFinished { ok: false, log: String::from("mismatch") });
    assert_eq!(
        deletes,
        vec![
            DeleteCmd::DeleteShader(Stage::Vertex),
            DeleteCmd::DeleteShader(Stage::Fragment),
            DeleteCmd::DeleteProgram,
        ]
    );
    assert!(!b.program_live && !b.vertex_live && !b.fragment_live);
    let err = b.finish(0, Vec::new()).unwrap_err();
    assert_eq!(err, GfxError::ShaderLink { log: String::from("mismatch") });
}

#[test]
fn program_allocation_failure() {
    let mut b = ShaderBuilder::new();
    let deletes = b.absorb(BuildEvent::Created(false));
    assert!(deletes.is_empty());
    assert_eq!(b.finish(0, Vec::new()).unwrap_err(), GfxError::ProgramAllocation);
}

#[test]
fn stage_allocation_failure_releases_program() {
    let mut b = ShaderBuilder::new();
    b.absorb(BuildEvent::Created(true));
    let deletes = b.absorb(BuildEvent::Created(false));
    assert_eq!(deletes, vec![DeleteCmd::DeleteProgram]);
    assert_eq!(
        b.finish(0, Vec::new()).unwrap_err(),
        GfxError::StageAllocation(Stage::Vertex)
    );
}

#[test]
fn activation_is_last_wins() {
    let a = ShaderBuilder::new();
    drop(a);
    let first = parametric_surfaces::shader::Shader { program: 1, uniforms: Vec::new() };
    let second = parametric_surfaces::shader::Shader { program: 2, uniforms: Vec::new() };
    let mut slot = ActivePipeline { active: None };
    first.use_shader(&mut slot);
    assert_eq!(slot.active, Some(1));
    second.use_shader(&mut slot);
    assert_eq!(slot.active, Some(2));
}

#[test]
fn uniform_setters_report_the_missing_name() {
    let shader = parametric_surfaces::shader::Shader {
        program: 3,
        uniforms: vec![UniformName::Model, UniformName::View],
    };
    assert!(shader.set_i32(UniformName::Model, 5).is_ok());
    let err = shader.set_i32(UniformName::Sampler, 0).unwrap_err();
    assert_eq!(err, GfxError::UnknownUniform { name: UniformName::Sampler });
}
