use simfony_ide::program::Program;

#[test]
fn add_default_modules_idempotent() {
    let text = "fn main() {\n    assert!(jet::eq_32(7, 7));\n}\n".to_string();
    let mut once = Program::new(text.clone());
    once.add_default_modules();
    let mut twice = Program::new(text);
    twice.add_default_modules();
    twice.add_default_modules();
    assert_eq!(once.text(), twice.text());
}

#[test]
fn missing_blocks_are_prepended() {
    let text = "fn main() {\n    assert!(jet::eq_32(7, 7));\n}\n".to_string();
    let old_len = text.len();
    let mut program = Program::new(text);
    program.add_default_modules();
    assert!(program.text().contains("mod witness"));
    assert!(program.text().contains("mod param"));
    let added = "mod witness {}\n\n".len() + "mod param {}\n\n".len();
    assert_eq!(program.text().len(), old_len + added);
}

#[test]
fn present_blocks_are_kept() {
    let text = "mod witness {}\n\nmod param {}\n\nfn main() {\n    assert!(jet::eq_32(7, 7));\n}\n"
        .to_string();
    let mut program = Program::new(text.clone());
    program.add_default_modules();
    assert_eq!(program.text().as_str(), text.as_str());
}

#[test]
fn only_missing_block_is_prepended() {
    let text = "mod witness {}\n\nfn main() {\n    assert!(jet::eq_32(7, 7));\n}\n".to_string();
    let mut program = Program::new(text.clone());
    program.add_default_modules();
    let expected = format!("mod param {{}}\n\n{text}");
    assert_eq!(program.text().as_str(), expected.as_str());
}

#[test]
fn text_with_default_modules_compiles() {
    let mut program = Program::new("fn main() {\n    assert!(jet::eq_32(7, 7));\n}\n".to_string());
    program.add_default_modules();
    assert!(program.cmr().is_ok());
    assert!(program.satisfied().is_ok());
}
