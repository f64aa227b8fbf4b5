use simfony_ide::program::Program;
use simfony_ide::runtime::Runtime;

#[test]
fn round_trip_with_witness() {
    let text = "mod witness {\n    const A: u32 = 7;\n}\n\nfn main() {\n    assert!(jet::eq_32(witness::A, 7));\n}\n";
    let mut program = Program::new(text.to_string());
    assert!(program.cmr().is_ok());
    assert!(program.satisfied().is_ok());
    let mut runtime = Runtime::new(program, simplicityhl::dummy_env::dummy());
    runtime.run();
    assert_eq!(runtime.run_succeeded(), Some(true));
    assert!(runtime.error_output().is_empty());
}

#[test]
fn failing_assertion_fails_the_run() {
    let text = "fn main() {\n    assert!(jet::eq_32(1, 2));\n}\n";
    let program = Program::new(text.to_string());
    let mut runtime = Runtime::new(program, simplicityhl::dummy_env::dummy());
    runtime.run();
    assert_eq!(runtime.run_succeeded(), Some(false));
    assert!(!runtime.error_output().is_empty());
}

#[test]
fn uncompilable_text_fails_the_run() {
    let program = Program::new("fn main() { this is not a program }".to_string());
    let mut runtime = Runtime::new(program, simplicityhl::dummy_env::dummy());
    runtime.run();
    assert_eq!(runtime.run_succeeded(), Some(false));
    assert!(!runtime.error_output().is_empty());
    assert!(runtime.debug_output().is_empty());
}

#[test]
fn outcome_success_clears_error() {
    let program = Program::new(String::new());
    let mut runtime = Runtime::new(program, simplicityhl::dummy_env::dummy());
    runtime.apply_outcome(Err("boom".to_string()), Vec::new());
    runtime.apply_outcome(Ok(()), Vec::new());
    assert_eq!(runtime.run_succeeded(), Some(true));
    assert!(runtime.error_output().is_empty());
    assert!(runtime.debug_output().is_empty());
}

#[test]
fn outcome_failure_records_error_and_trace() {
    let program = Program::new(String::new());
    let mut runtime = Runtime::new(program, simplicityhl::dummy_env::dummy());
    let lines = vec!["a = 1".to_string(), "b = 2".to_string()];
    runtime.apply_outcome(Err("boom".to_string()), lines);
    assert_eq!(runtime.run_succeeded(), Some(false));
    assert_eq!(runtime.error_output().as_str(), "boom");
    assert_eq!(runtime.debug_output().as_str(), "a = 1\nb = 2");
}

#[test]
fn clear_run_status_resets_the_flag() {
    let program = Program::new(String::new());
    let mut runtime = Runtime::new(program, simplicityhl::dummy_env::dummy());
    runtime.run();
    assert!(runtime.run_succeeded().is_some());
    runtime.clear_run_status();
    assert_eq!(runtime.run_succeeded(), None);
}
