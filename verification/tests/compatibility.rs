use ashlang_ide::ide::IDE;
use ashlang_ide::selection::{extension_priorities, target_str, validate, Field, Target};

const REQUIRED_FIELD_MESSAGE: &str = "tasm target must be compiled to the oxfoi field";

#[test]
fn validate_all_six_combinations() {
    // The constraint-system target accepts every supported field algebra.
    assert!(validate(Target::ConstraintSystem, Field::Oxfoi).is_ok());
    assert!(validate(Target::ConstraintSystem, Field::Curve25519).is_ok());
    assert!(validate(Target::ConstraintSystem, Field::AltBn128).is_ok());
    // The assembly-like target accepts exactly its mandated field.
    assert!(validate(Target::Assembly, Field::Oxfoi).is_ok());
    assert_eq!(
        validate(Target::Assembly, Field::Curve25519).unwrap_err(),
        REQUIRED_FIELD_MESSAGE
    );
    assert_eq!(
        validate(Target::Assembly, Field::AltBn128).unwrap_err(),
        REQUIRED_FIELD_MESSAGE
    );
}

#[test]
fn incompatible_selection_fails_fast() {
    // Scenario: assembly target over a field that is not the mandated one.
    let mut ide = IDE::new();
    ide.set_target(Target::Assembly);
    ide.set_field(Field::Curve25519);
    let run = ide.trigger_recompile();
    // No run starts, so the external compiler is never invoked.
    assert!(run.is_none());
    // The failure message names the required field.
    assert_eq!(ide.status(), REQUIRED_FIELD_MESSAGE);
    assert!(ide.status().contains("oxfoi"));
    assert_eq!(ide.artifact(), "");
}

#[test]
fn target_identifiers() {
    assert_eq!(target_str(Target::ConstraintSystem), "r1cs");
    assert_eq!(target_str(Target::Assembly), "tasm");
}

#[test]
fn extension_priorities_per_target() {
    // Each target prefers its own low-level extension over the generic one.
    let r1cs = extension_priorities(Target::ConstraintSystem);
    assert_eq!(r1cs, vec!["ar1cs".to_string(), "ash".to_string()]);
    let tasm = extension_priorities(Target::Assembly);
    assert_eq!(tasm, vec!["tasm".to_string(), "ash".to_string()]);
}
