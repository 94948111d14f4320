use ashlang_ide::ide::IDE;
use ashlang_ide::outcome::{CompileResult, Stage};
use ashlang_ide::pipeline::{make_config, pipeline_step, PipelineEvent, PipelineRun, PipelineState};
use ashlang_ide::selection::{Field, Target};

/// Drive a constraint-system run to completion with successful stage
/// outcomes, handing `artifact` back as the compiled program's rendering.
fn drive_constraint_success(ide: &mut IDE, artifact: &str) {
    let run = ide.trigger_recompile().expect("selection should be compatible");
    let run = pipeline_step(run, PipelineEvent::Configured(Ok(())));
    assert!(matches!(run.state, PipelineState::Compiling));
    let run = pipeline_step(run, PipelineEvent::Compiled(Ok(artifact.to_string())));
    assert!(matches!(run.state, PipelineState::BuildingWitness { .. }));
    let run = pipeline_step(run, PipelineEvent::WitnessBuilt(Ok(())));
    assert!(matches!(run.state, PipelineState::Verifying { .. }));
    let run = pipeline_step(run, PipelineEvent::WitnessVerified(Ok(())));
    assert!(matches!(run.state, PipelineState::Done { .. }));
    ide.finish_run(run);
}

#[test]
fn constraint_success_over_the_default_field() {
    // Scenario: the seeded workspace (entry program feeding element-wise
    // vector products through the fifth-power helper), constraint-system
    // target, oxfoi field, all stages succeeding.
    let mut ide = IDE::new();
    assert!(ide.source().contains("pow5"));
    drive_constraint_success(&mut ide, "0 = (1*x0) * (1*one) - (1*y0)\n");
    assert_eq!(
        ide.status(),
        "Compiling for field oxfoi...\nR1CS: built and validated witness ✅"
    );
    assert!(ide.status().contains("oxfoi"));
    assert!(ide.status().contains("witness"));
    assert_eq!(ide.artifact(), "0 = (1*x0) * (1*one) - (1*y0)\n");
    assert!(!ide.artifact().is_empty());
}

#[test]
fn switching_the_field_renames_the_summary() {
    // Scenario: only the field selection changes on an otherwise
    // successful workspace; the new summary names the new field.
    let mut ide = IDE::new();
    drive_constraint_success(&mut ide, "listing");
    assert!(ide.status().contains("oxfoi"));
    ide.set_field(Field::Curve25519);
    drive_constraint_success(&mut ide, "listing");
    assert_eq!(
        ide.status(),
        "Compiling for field curve25519...\nR1CS: built and validated witness ✅"
    );
    ide.set_field(Field::AltBn128);
    drive_constraint_success(&mut ide, "listing");
    assert_eq!(
        ide.status(),
        "Compiling for field alt_bn128...\nR1CS: built and validated witness ✅"
    );
}

#[test]
fn rerun_without_changes_is_identical() {
    // Two runs in a row with no intervening change to workspace or
    // selection, the collaborators reporting the same outcomes, publish
    // structurally identical results.
    let mut ide = IDE::new();
    drive_constraint_success(&mut ide, "listing A");
    let first_status = ide.status();
    let first_artifact = ide.artifact();
    drive_constraint_success(&mut ide, "listing A");
    assert_eq!(ide.status(), first_status);
    assert_eq!(ide.artifact(), first_artifact);
}

#[test]
fn compiler_diagnostic_is_sanitized() {
    // Scenario: syntactically invalid source; the compiler's colored
    // diagnostic is stripped of ANSI escapes before display.
    let mut ide = IDE::new();
    ide.set_source("let x = ".to_string());
    let run = ide.trigger_recompile().unwrap();
    let run = pipeline_step(run, PipelineEvent::Configured(Ok(())));
    let run = pipeline_step(
        run,
        PipelineEvent::Compiled(Err("\u{1b}[31munexpected end of input\u{1b}[0m".to_string())),
    );
    match &run.state {
        PipelineState::Done { result: CompileResult::Failure { stage, message } } => {
            assert_eq!(*stage, Stage::Compilation);
            assert_eq!(message, "Failed to compile to r1cs: unexpected end of input");
        }
        _ => panic!("compilation failure should finish the run"),
    }
    ide.finish_run(run);
    assert_eq!(ide.status(), "Failed to compile to r1cs: unexpected end of input");
    assert_eq!(ide.artifact(), "");
}

#[test]
fn witness_build_failure_is_terminal() {
    // Scenario: the source compiles but no witness can be built.
    let mut ide = IDE::new();
    let run = ide.trigger_recompile().unwrap();
    let run = pipeline_step(run, PipelineEvent::Configured(Ok(())));
    let run = pipeline_step(run, PipelineEvent::Compiled(Ok("listing".to_string())));
    let run = pipeline_step(run, PipelineEvent::WitnessBuilt(Err("no solution".to_string())));
    match &run.state {
        PipelineState::Done { result: CompileResult::Failure { stage, message } } => {
            assert_eq!(*stage, Stage::WitnessBuild);
            assert_eq!(message, "Failed to build witness: no solution");
        }
        _ => panic!("witness build failure should finish the run"),
    }
    ide.finish_run(run);
    assert_eq!(ide.status(), "Failed to build witness: no solution");
    assert_eq!(ide.artifact(), "");
}

#[test]
fn witness_verify_failure_is_terminal() {
    // Scenario: contradictory assertions; the built witness does not
    // satisfy the constraints.
    let mut ide = IDE::new();
    ide.set_source("assert_eq(1, 2)\n".to_string());
    let run = ide.trigger_recompile().unwrap();
    let run = pipeline_step(run, PipelineEvent::Configured(Ok(())));
    let run = pipeline_step(run, PipelineEvent::Compiled(Ok("listing".to_string())));
    let run = pipeline_step(run, PipelineEvent::WitnessBuilt(Ok(())));
    let run = pipeline_step(
        run,
        PipelineEvent::WitnessVerified(Err("constraint 3 unsatisfied".to_string())),
    );
    match &run.state {
        PipelineState::Done { result: CompileResult::Failure { stage, message } } => {
            assert_eq!(*stage, Stage::WitnessVerify);
            assert_eq!(message, "Failed to solve r1cs: constraint 3 unsatisfied");
        }
        _ => panic!("witness verification failure should finish the run"),
    }
    ide.finish_run(run);
    assert_eq!(ide.status(), "Failed to solve r1cs: constraint 3 unsatisfied");
    assert_eq!(ide.artifact(), "");
}

#[test]
fn configuration_failure_is_terminal() {
    let mut ide = IDE::new();
    let run = ide.trigger_recompile().unwrap();
    let run = pipeline_step(run, PipelineEvent::Configured(Err("unknown field".to_string())));
    match &run.state {
        PipelineState::Done { result: CompileResult::Failure { stage, message } } => {
            assert_eq!(*stage, Stage::Configuration);
            assert_eq!(message, "Failed to create compiler: unknown field");
        }
        _ => panic!("configuration failure should finish the run"),
    }
    ide.finish_run(run);
    assert_eq!(ide.status(), "Failed to create compiler: unknown field");
}

#[test]
fn assembly_run_skips_the_witness_stages() {
    let mut ide = IDE::new();
    ide.set_target(Target::Assembly);
    let run = ide.trigger_recompile().expect("oxfoi is the mandated assembly field");
    let run = pipeline_step(run, PipelineEvent::Configured(Ok(())));
    let run = pipeline_step(run, PipelineEvent::Compiled(Ok("push 5\npow\n".to_string())));
    assert!(matches!(run.state, PipelineState::Done { .. }));
    ide.finish_run(run);
    // The success summary states which field the program was compiled for.
    assert_eq!(ide.status(), "Compiled program to tasm source for field oxfoi");
    assert!(ide.status().contains("oxfoi"));
    assert_eq!(ide.artifact(), "push 5\npow\n");
}

#[test]
fn run_carries_the_selection_it_started_with() {
    let mut ide = IDE::new();
    let run: PipelineRun = ide.trigger_recompile().unwrap();
    assert!(matches!(run.target, Target::ConstraintSystem));
    assert!(matches!(run.field, Field::Oxfoi));
    match &run.state {
        PipelineState::Configuring { config } => {
            assert_eq!(config.target, "r1cs");
            assert_eq!(config.field, "oxfoi");
            assert_eq!(config.entry_fn, "entry");
            assert_eq!(config.extension_priorities, vec!["ar1cs".to_string(), "ash".to_string()]);
            assert!(config.include_paths.is_empty());
            assert!(config.inputs.is_empty());
            assert!(config.secret_inputs.is_empty());
            assert_eq!(config.verbosity, 0);
        }
        _ => panic!("a fresh run starts in the configuring state"),
    }
}

#[test]
fn assembly_config_prefers_the_assembly_extension() {
    let config = make_config(Target::Assembly, Field::Oxfoi);
    assert_eq!(config.target, "tasm");
    assert_eq!(config.field, "oxfoi");
    assert_eq!(config.extension_priorities, vec!["tasm".to_string(), "ash".to_string()]);
}
