use chaseai::context::InstructionContext;

#[test]
fn instruction_test_valid_context_creation() {
    let ctx = InstructionContext::new(
        "sys".to_string(),
        "role".to_string(),
        "inst".to_string(),
        vec!["action".to_string()],
        false,
    );
    assert!(ctx.is_ok());
}

#[test]
fn instruction_test_empty_system_fails() {
    let ctx = InstructionContext::new(
        "".to_string(),
        "role".to_string(),
        "inst".to_string(),
        vec!["action".to_string()],
        false,
    );
    assert!(ctx.is_err());
}
