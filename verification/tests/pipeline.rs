use wasm_editor::CompileError;
use wasm_editor::PipelineAction;
use wasm_editor::PipelineRun;
use wasm_editor::StageOutcome;
use wasm_editor::evaluate;
use wasm_editor::preview_stages;

fn ok_outcome() -> StageOutcome {
    StageOutcome { exit_code: Some(0), stderr: Vec::new() }
}

#[test]
fn evaluate_all_ok_returns_captured_bytes() {
    let outcomes = vec![ok_outcome(), ok_outcome()];
    let r = evaluate(&outcomes, b"(module)".to_vec());
    assert_eq!(r.unwrap(), b"(module)".to_vec());
}

#[test]
fn evaluate_reports_first_failing_stage() {
    let outcomes = vec![
        StageOutcome { exit_code: Some(1), stderr: b"error: expected ';'".to_vec() },
        ok_outcome(),
    ];
    let r = evaluate(&outcomes, b"not a result".to_vec());
    match r {
        Err(CompileError::StageFailed { stage, exit_code, stderr }) => {
            assert_eq!(stage, 0);
            assert_eq!(exit_code, Some(1));
            assert_eq!(stderr, b"error: expected ';'".to_vec());
        },
        other => panic!("expected StageFailed, got {:?}", other),
    }
}

#[test]
fn evaluate_reports_second_stage_failure() {
    let outcomes = vec![
        ok_outcome(),
        StageOutcome { exit_code: Some(2), stderr: b"bad magic".to_vec() },
    ];
    match evaluate(&outcomes, Vec::new()) {
        Err(CompileError::StageFailed { stage, exit_code, stderr }) => {
            assert_eq!(stage, 1);
            assert_eq!(exit_code, Some(2));
            assert_eq!(stderr, b"bad magic".to_vec());
        },
        other => panic!("expected StageFailed, got {:?}", other),
    }
}

#[test]
fn evaluate_treats_missing_exit_code_as_failure() {
    let outcomes = vec![StageOutcome { exit_code: None, stderr: Vec::new() }, ok_outcome()];
    match evaluate(&outcomes, Vec::new()) {
        Err(CompileError::StageFailed { stage, exit_code, .. }) => {
            assert_eq!(stage, 0);
            assert_eq!(exit_code, None);
        },
        other => panic!("expected StageFailed, got {:?}", other),
    }
}

#[test]
fn run_spawns_every_stage_before_collecting() {
    let mut run = PipelineRun::new(preview_stages("/tmp/input.c"));
    // Before every stage is started, the run never asks to wait or collect.
    match run.next_action() {
        PipelineAction::SpawnStage { index } => assert_eq!(index, 0),
        _ => panic!("expected SpawnStage 0"),
    }
    run.stage_spawned();
    match run.next_action() {
        PipelineAction::SpawnStage { index } => assert_eq!(index, 1),
        _ => panic!("expected SpawnStage 1"),
    }
    run.stage_spawned();
    assert!(matches!(run.next_action(), PipelineAction::Collect));
}

#[test]
fn run_completes_with_captured_output() {
    let mut run = PipelineRun::new(preview_stages("/tmp/input.c"));
    run.stage_spawned();
    run.stage_spawned();
    run.collected(&vec![ok_outcome(), ok_outcome()], b"(module)".to_vec());
    assert!(matches!(run.next_action(), PipelineAction::Finished));
    assert_eq!(run.finish().unwrap(), b"(module)".to_vec());
}

#[test]
fn spawn_failure_ends_the_run() {
    let mut run = PipelineRun::new(preview_stages("/tmp/input.c"));
    run.stage_spawn_failed("clang: command not found".to_string());
    assert!(matches!(run.next_action(), PipelineAction::Finished));
    match run.finish() {
        Err(CompileError::SpawnError { stage, cause }) => {
            assert_eq!(stage, 0);
            assert_eq!(cause, "clang: command not found");
        },
        other => panic!("expected SpawnError, got {:?}", other),
    }
}

#[test]
fn second_spawn_failure_names_second_stage() {
    let mut run = PipelineRun::new(preview_stages("/tmp/input.c"));
    run.stage_spawned();
    run.stage_spawn_failed("wasm2wat: command not found".to_string());
    match run.finish() {
        Err(CompileError::SpawnError { stage, .. }) => assert_eq!(stage, 1),
        other => panic!("expected SpawnError, got {:?}", other),
    }
}

#[test]
fn io_failure_ends_the_run() {
    let mut run = PipelineRun::new(preview_stages("/tmp/input.c"));
    run.stage_spawned();
    run.stage_spawned();
    run.io_failed("broken pipe".to_string());
    match run.finish() {
        Err(CompileError::IoError { cause }) => assert_eq!(cause, "broken pipe"),
        other => panic!("expected IoError, got {:?}", other),
    }
}

#[test]
fn compile_stage_failure_never_passes_disassembly_off() {
    // The disassembler may well have produced bytes; a failed compile stage
    // must win over them.
    let mut run = PipelineRun::new(preview_stages("/tmp/input.c"));
    run.stage_spawned();
    run.stage_spawned();
    let outcomes = vec![
        StageOutcome { exit_code: Some(1), stderr: b"1 error generated.".to_vec() },
        ok_outcome(),
    ];
    run.collected(&outcomes, b"(module)".to_vec());
    match run.finish() {
        Err(CompileError::StageFailed { stage, .. }) => assert_eq!(stage, 0),
        other => panic!("expected StageFailed for the compile stage, got {:?}", other),
    }
}
