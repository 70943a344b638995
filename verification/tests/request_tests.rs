use commit_assist::request::{
    build_commit_request, build_summary_request, endpoint, Config, Profile, Role,
};

fn config() -> Config {
    Config {
        api_key: "SECRET-REDACTED".to_string(),
        base_url: "https://api.example.test/v1".to_string(),
        model_name: "model-x".to_string(),
        max_tokens: 256,
        system_prompt: "Write a commit message.".to_string(),
        user_template: "Diff:\n{}".to_string(),
        slides_prompt: "Summarize the slides.".to_string(),
    }
}

#[test]
fn commit_request_interpolates_the_diff() {
    let request = build_commit_request(&config(), "+ added logging\n- removed debug print");
    assert_eq!(request.messages.len(), 2);
    assert_eq!(request.messages[1].role, Role::User);
    assert_eq!(request.messages[1].content, "Diff:\n+ added logging\n- removed debug print");
}

#[test]
fn commit_request_starts_with_the_system_prompt() {
    let request = build_commit_request(&config(), "+ a");
    assert_eq!(request.messages[0].role, Role::System);
    assert_eq!(request.messages[0].content, "Write a commit message.");
    assert_eq!(request.model, "model-x");
    assert_eq!(request.max_tokens, 256);
}

#[test]
fn commit_request_does_not_truncate_the_diff() {
    let diff = "+ line\n".repeat(20_000);
    let request = build_commit_request(&config(), &diff);
    assert_eq!(request.messages[1].content, format!("Diff:\n{}", diff));
    assert_eq!(request.max_tokens, 256);
}

#[test]
fn commit_request_keeps_a_marker_inside_the_diff() {
    let request = build_commit_request(&config(), "+ let s = format!(\"{}\", x);");
    assert_eq!(request.messages[1].content, "Diff:\n+ let s = format!(\"{}\", x);");
}

#[test]
fn summary_request_keeps_the_order_of_documents() {
    let documents = vec!["first".to_string(), "second".to_string(), "third".to_string()];
    let request = build_summary_request(&config(), &documents);
    assert_eq!(request.messages.len(), 4);
    assert_eq!(request.messages[0].role, Role::System);
    assert_eq!(request.messages[0].content, "Summarize the slides.");
    for (k, document) in documents.iter().enumerate() {
        assert_eq!(request.messages[k + 1].role, Role::User);
        assert_eq!(&request.messages[k + 1].content, document);
    }
    assert_eq!(request.model, "model-x");
    assert_eq!(request.max_tokens, 256);
}

#[test]
fn summary_request_without_documents_has_the_prompt_alone() {
    let request = build_summary_request(&config(), &Vec::new());
    assert_eq!(request.messages.len(), 1);
    assert_eq!(request.messages[0].role, Role::System);
}

#[test]
fn summary_request_does_not_fill_markers() {
    let documents = vec!["a {} b".to_string()];
    let request = build_summary_request(&config(), &documents);
    assert_eq!(request.messages[1].content, "a {} b");
}

#[test]
fn commit_requests_go_to_chat_completions() {
    assert_eq!(
        endpoint(&config(), Profile::CommitMessage),
        "https://api.example.test/v1/chat/completions"
    );
}

#[test]
fn summary_requests_go_to_the_base_address() {
    assert_eq!(endpoint(&config(), Profile::DocumentSummary), "https://api.example.test/v1");
}
