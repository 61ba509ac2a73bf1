use chaseai::context::{clone_strings, InstructionContext, ValidationError};

fn context(system: &str, role: &str, instruction: &str, actions: &[&str]) -> InstructionContext {
    InstructionContext {
        system: system.to_string(),
        role: role.to_string(),
        base_instruction: instruction.to_string(),
        allowed_actions: actions.iter().map(|a| a.to_string()).collect(),
        verification_required: false,
    }
}

#[test]
fn a_document_that_keeps_every_rule_is_valid() {
    assert_eq!(context("S", "R", "do X", &["run"]).validate(), Ok(()));
    assert_eq!(
        context(" WinSF ", "execution-agent", "Do\nwork", &["a", "a1", "a-b-2", "z9-"]).validate(),
        Ok(())
    );
    let made = InstructionContext::new(
        "S".to_string(),
        "R".to_string(),
        "do X".to_string(),
        vec!["run".to_string()],
        true,
    )
    .unwrap();
    assert_eq!(
        made,
        InstructionContext {
            system: "S".to_string(),
            role: "R".to_string(),
            base_instruction: "do X".to_string(),
            allowed_actions: vec!["run".to_string()],
            verification_required: true,
        }
    );
}

#[test]
fn each_broken_rule_is_reported_by_its_own_error() {
    assert_eq!(
        context("", "R", "do X", &["run"]).validate(),
        Err(ValidationError::EmptySystem)
    );
    assert_eq!(
        context(" \t", "R", "do X", &["run"]).validate(),
        Err(ValidationError::EmptySystem)
    );
    assert_eq!(
        context("S", "  ", "do X", &["run"]).validate(),
        Err(ValidationError::EmptyRole)
    );
    assert_eq!(
        context("S", "R", "\n", &["run"]).validate(),
        Err(ValidationError::EmptyInstruction)
    );
    assert_eq!(
        context("S", "R", "do X", &[]).validate(),
        Err(ValidationError::EmptyActions)
    );
    assert_eq!(
        context("S", "R", "do X", &["Run"]).validate(),
        Err(ValidationError::InvalidAction("Run".to_string()))
    );
}

#[test]
fn action_names_follow_the_pattern() {
    for good in ["a", "run", "execute-safe", "a1", "a-", "a--b", "x0123456789"] {
        assert_eq!(context("S", "R", "I", &[good]).validate(), Ok(()), "{:?}", good);
    }
    for bad in [
        "", "1action", "-a", "InvalidAction", "aB", "a b", "a_b", "a.b", " a", "a ", "a\n",
        "é", "aé", "run!",
    ] {
        assert_eq!(
            context("S", "R", "I", &[bad]).validate(),
            Err(ValidationError::InvalidAction(bad.to_string())),
            "{:?}",
            bad
        );
    }
}

#[test]
fn the_first_broken_rule_is_the_one_reported() {
    assert_eq!(
        context("", "", "", &[]).validate(),
        Err(ValidationError::EmptySystem)
    );
    assert_eq!(
        context("S", "", "", &[]).validate(),
        Err(ValidationError::EmptyRole)
    );
    assert_eq!(
        context("S", "R", "", &["Bad"]).validate(),
        Err(ValidationError::EmptyInstruction)
    );
    assert_eq!(
        context("S", "R", "I", &["ok", "Bad", "Worse"]).validate(),
        Err(ValidationError::InvalidAction("Bad".to_string()))
    );
}

#[test]
fn a_document_is_validated_under_given_verdicts() {
    let document = context("S", "R", "I", &["one", "two", "three"]);
    assert_eq!(
        document.verdicts(),
        vec![Some(true), Some(true), Some(true)]
    );
    assert_eq!(
        context("S", "R", "I", &["one", "Two"]).verdicts(),
        vec![Some(true), Some(false)]
    );
    assert_eq!(
        document.validate_with(&vec![Some(true), Some(true), Some(true)]),
        Ok(())
    );
    assert_eq!(
        document.validate_with(&vec![Some(true), Some(false), None]),
        Err(ValidationError::InvalidAction("two".to_string()))
    );
    assert_eq!(
        document.validate_with(&vec![Some(true), Some(true), None]),
        Err(ValidationError::InvalidAction("three".to_string()))
    );
    assert_eq!(
        context("", "R", "I", &["one"]).validate_with(&vec![Some(true)]),
        Err(ValidationError::EmptySystem)
    );
}

#[test]
fn messages_of_refusals_are_exact() {
    assert_eq!(ValidationError::EmptySystem.message(), "System identifier cannot be empty");
    assert_eq!(ValidationError::EmptyRole.message(), "Agent role cannot be empty");
    assert_eq!(
        ValidationError::EmptyInstruction.message(),
        "Base instruction cannot be empty"
    );
    assert_eq!(
        ValidationError::EmptyActions.message(),
        "Allowed actions list cannot be empty"
    );
    assert_eq!(
        ValidationError::InvalidAction("1action".to_string()).message(),
        "Invalid action name '1action': must start with a lowercase letter and contain only lowercase letters, numbers, and hyphens"
    );
}

#[test]
fn copies_are_equal_to_what_they_copy() {
    let document = context("S", "R", "I", &["one", "two"]);
    assert_eq!(document.clone(), document);
    assert_eq!(
        clone_strings(&document.allowed_actions),
        vec!["one".to_string(), "two".to_string()]
    );
    assert!(clone_strings(&Vec::new()).is_empty());
}
