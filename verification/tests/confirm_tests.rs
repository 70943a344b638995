use commit_assist::confirm::{
    edit_commit_message, validate_commit_message, Confirmation, PromptOutcome,
};

#[test]
fn an_empty_message_is_not_valid() {
    assert!(!validate_commit_message(""));
}

#[test]
fn any_other_message_is_valid() {
    assert!(validate_commit_message("fix: x"));
    assert!(validate_commit_message(" "));
    assert!(validate_commit_message("\n"));
    assert!(validate_commit_message("\u{e9}"));
}

#[test]
fn a_submitted_message_is_accepted_as_it_is() {
    let decision = edit_commit_message(PromptOutcome::Submitted(" edited: y ".to_string()));
    match decision {
        Confirmation::Accepted(message) => assert_eq!(message, " edited: y "),
        other => panic!("{:?}", other),
    }
}

#[test]
fn an_empty_entry_is_asked_for_again() {
    let decision = edit_commit_message(PromptOutcome::Submitted(String::new()));
    assert!(matches!(decision, Confirmation::AskAgain));
}

#[test]
fn a_cancellation_is_passed_on() {
    let decision = edit_commit_message(PromptOutcome::Cancelled);
    assert!(matches!(decision, Confirmation::Cancelled));
}
