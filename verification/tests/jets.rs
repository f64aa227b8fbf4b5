use simfony_ide::jet::{execute_jet_with_env, input_matches};
use simplicityhl::simplicity::jet::Elements;
use simplicityhl::simplicity::Value;

#[test]
fn add_32_computes_the_sum() {
    let env = simplicityhl::dummy_env::dummy();
    let input = Value::product(Value::u32(2), Value::u32(7));
    let output = match execute_jet_with_env(&Elements::Add32, &input, &env) {
        Ok(output) => output,
        Err(_) => panic!("add_32 must not fail"),
    };
    assert_eq!(output, Value::product(Value::u1(0), Value::u32(9)));
}

#[test]
fn add_32_reports_the_carry() {
    let env = simplicityhl::dummy_env::dummy();
    let input = Value::product(Value::u32(u32::MAX), Value::u32(1));
    let output = match execute_jet_with_env(&Elements::Add32, &input, &env) {
        Ok(output) => output,
        Err(_) => panic!("add_32 must not fail"),
    };
    assert_eq!(output, Value::product(Value::u1(1), Value::u32(0)));
}

#[test]
fn verify_accepts_a_true_bit() {
    let env = simplicityhl::dummy_env::dummy();
    let output = match execute_jet_with_env(&Elements::Verify, &Value::u1(1), &env) {
        Ok(output) => output,
        Err(_) => panic!("verify on a true bit must not fail"),
    };
    assert_eq!(output, Value::unit());
}

#[test]
fn verify_rejects_a_false_bit() {
    let env = simplicityhl::dummy_env::dummy();
    let result = execute_jet_with_env(&Elements::Verify, &Value::u1(0), &env);
    assert!(result.is_err());
}

#[test]
fn input_matches_checks_the_source_type() {
    let pair = Value::product(Value::u32(2), Value::u32(7));
    assert!(input_matches(&Elements::Add32, &pair));
    assert!(!input_matches(&Elements::Add32, &Value::u1(0)));
    assert!(input_matches(&Elements::Verify, &Value::u1(0)));
    assert!(!input_matches(&Elements::Verify, &pair));
}
