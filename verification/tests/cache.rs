use simfony_ide::program::Program;

fn ok_program() -> String {
    "fn main() {\n    assert!(jet::eq_32(7, 7));\n}\n".to_string()
}

fn other_program() -> String {
    "fn main() {\n    assert!(jet::eq_32(6, 6));\n}\n".to_string()
}

fn bad_program() -> String {
    "fn main() { this is not a program }".to_string()
}

#[test]
fn idempotent_read_commitment() {
    let mut program = Program::new(ok_program());
    let first = program.cmr();
    let second = program.cmr();
    assert!(first.is_ok());
    assert_eq!(first, second);
}

#[test]
fn idempotent_read_satisfied() {
    let mut program = Program::new(ok_program());
    let first = program.satisfied();
    let second = program.satisfied();
    assert!(first.is_ok());
    assert!(second.is_ok());
}

#[test]
fn idempotent_read_errors() {
    let mut program = Program::new(bad_program());
    let first = program.cmr();
    let second = program.cmr();
    assert!(first.is_err());
    assert_eq!(first, second);
}

#[test]
fn cache_correctness_across_texts() {
    let mut program = Program::new(ok_program());
    let first = program.cmr();
    program.set_text(other_program());
    let second = program.cmr();
    let mut fresh = Program::new(other_program());
    let expected = fresh.cmr();
    assert_eq!(second, expected);
    assert_ne!(first, second);
}

#[test]
fn cache_recovers_after_error() {
    let mut program = Program::new(bad_program());
    assert!(program.cmr().is_err());
    assert!(program.satisfied().is_err());
    program.set_text(ok_program());
    assert!(program.cmr().is_ok());
    assert!(program.satisfied().is_ok());
}

#[test]
fn empty_program() {
    let mut program = Program::new(String::new());
    assert!(program.is_empty());
    assert!(program.cmr().is_err());
    assert!(program.satisfied().is_err());
}

#[test]
fn nonempty_program_is_not_empty() {
    let program = Program::new(ok_program());
    assert!(!program.is_empty());
}

#[test]
fn commitment_is_32_bytes() {
    let mut program = Program::new(ok_program());
    let cmr = program.cmr().expect("program compiles");
    assert_eq!(cmr.len(), 32);
}

#[test]
fn commitment_survives_witness_error() {
    // The commitment depends only on the program structure, so a missing
    // witness value fails satisfaction alone.
    let text = "fn main() {\n    assert!(jet::eq_32(witness::A, 7));\n}\n".to_string();
    let mut program = Program::new(text);
    assert!(program.cmr().is_ok());
    assert!(program.satisfied().is_err());
}

#[test]
fn front_end_failure_fills_both_slots_alike() {
    // A parse or compile failure short-circuits satisfaction, so both
    // slots carry the identical message.
    let mut program = Program::new(bad_program());
    let cmr_error = program.cmr().unwrap_err();
    let satisfied_error = match program.satisfied() {
        Ok(_) => panic!("the program must not satisfy"),
        Err(error) => error,
    };
    assert_eq!(cmr_error, satisfied_error);
    assert!(!cmr_error.is_empty());
}
