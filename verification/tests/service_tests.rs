use std::sync::Arc;

use cursor_brain::config::config_from_text;
use cursor_brain::json::JsonValue;
use cursor_brain::openai::{ChatCompletionRequest, ChatMessage};
use cursor_brain::service::{
    new_completion_id, step_failure, CompletionError, CompletionInput, CompletionService,
    RetryState, RetryStep,
};

fn msg(role: &str, content: &str) -> ChatMessage {
    ChatMessage { role: role.to_string(), content: Some(JsonValue::Str(content.to_string())) }
}

fn request(model: Option<&str>, messages: Vec<ChatMessage>, stream: Option<bool>) -> ChatCompletionRequest {
    ChatCompletionRequest {
        model: model.map(String::from),
        messages,
        stream,
        max_tokens: None,
        tools: None,
        tool_choice: None,
    }
}

#[test]
fn single_message_request() {
    let body = request(None, vec![msg("user", "Hello")], None);
    let input = CompletionInput::from_request(&body, Some("  ext-1 "), "auto").unwrap();
    assert_eq!(input.user_msg, "Hello");
    assert_eq!(input.model, "auto");
    assert!(!input.stream);
    assert_eq!(input.external_session_id.as_deref(), Some("ext-1"));
}

#[test]
fn conversation_request() {
    let body = request(Some("gpt-5"), vec![msg("system", "s"), msg("user", "u")], Some(true));
    let input = CompletionInput::from_request(&body, Some("   "), "auto").unwrap();
    assert_eq!(input.user_msg, "System:\ns\n\n---\n\nUser:\nu");
    assert_eq!(input.model, "gpt-5");
    assert!(input.stream);
    assert!(input.external_session_id.is_none());
    let body = request(Some(""), vec![msg("user", "x")], None);
    assert_eq!(CompletionInput::from_request(&body, None, "dflt").unwrap().model, "dflt");
}

#[test]
fn request_without_user_text_is_invalid() {
    for body in [
        request(None, vec![], None),
        request(None, vec![msg("system", "only system")], None),
        request(None, vec![msg("user", "   ")], None),
    ] {
        match CompletionInput::from_request(&body, None, "auto") {
            Err(CompletionError::InvalidRequest(m)) => assert_eq!(m, "no user message in messages"),
            other => panic!("unexpected {:?}", other),
        }
    }
}

#[test]
fn retry_sequence_with_session_and_fallback() {
    let mut s = RetryState::start("chatcmpl-1".into(), Some("cur".into()), "m1".into());
    assert_eq!(s.next_step(false, true, true, Some("m2")), RetryStep::DropSessionAndRetry);
    assert!(s.resume.is_none());
    assert_eq!(s.next_step(false, true, true, Some("m2")), RetryStep::RetryOnce);
    assert_eq!(s.next_step(false, true, true, Some("m2")), RetryStep::RetryWithFallback);
    assert_eq!(s.model, "m2");
    assert_eq!(s.next_step(false, true, true, Some("m2")), RetryStep::GiveUp);
    assert_eq!(s.id, "chatcmpl-1");
}

#[test]
fn retry_accepts_output_and_skips_same_fallback() {
    let mut s = RetryState::start("chatcmpl-2".into(), None, "m1".into());
    assert_eq!(s.next_step(false, false, false, None), RetryStep::Accept);
    assert_eq!(s.next_step(false, true, false, Some("m1")), RetryStep::RetryOnce);
    assert_eq!(s.next_step(false, true, false, Some("m1")), RetryStep::GiveUp);
    let mut s = RetryState::start("chatcmpl-2".into(), None, "m1".into());
    assert_eq!(s.next_step(false, true, false, None), RetryStep::RetryOnce);
    assert_eq!(s.next_step(false, false, false, None), RetryStep::Accept);
}

#[test]
fn completion_ids_are_fresh() {
    let a = new_completion_id();
    let b = new_completion_id();
    assert!(a.starts_with("chatcmpl-"));
    assert_eq!(a.len(), 41);
    assert!(a[9..].chars().all(|c| c.is_ascii_hexdigit() && !c.is_ascii_uppercase()));
    assert_ne!(a, b);
    let cs: Vec<char> = a[9..].chars().collect();
    assert_eq!(cs[12], '4');
    assert!(matches!(cs[16], '8' | '9' | 'a' | 'b'));
}

#[test]
fn timed_out_run_fails_with_timeout() {
    let mut s = RetryState::start("chatcmpl-3".into(), Some("cur".into()), "m1".into());
    assert_eq!(s.next_step(true, false, true, Some("m2")), RetryStep::TimedOut);
    assert_eq!(s.resume.as_deref(), Some("cur"));
    assert_eq!(s.next_step(true, true, true, Some("m2")), RetryStep::TimedOut);
    assert!(matches!(step_failure(&RetryStep::TimedOut), Some(CompletionError::Timeout)));
    assert!(matches!(step_failure(&RetryStep::GiveUp), Some(CompletionError::NoContent)));
    assert!(step_failure(&RetryStep::Accept).is_none());
    assert!(step_failure(&RetryStep::RetryOnce).is_none());
}

#[test]
fn service_settings() {
    let mut config = config_from_text(Some(r#"{"request_timeout_sec": 42, "sandbox": "disabled", "minimal_workspace_dir": "/ws"}"#));
    config.cursor_path = None;
    let svc = CompletionService::new(Arc::new(config), ());
    assert_eq!(svc.timeout_secs(), 42);
    let o = svc.spawn_options();
    assert_eq!(o.workspace_dir.as_deref(), Some("/ws"));
    assert_eq!(o.agent_mode, "agent");
    assert_eq!(o.sandbox, "disabled");
    assert!(!o.allow_agent_write);
    assert!(matches!(svc.cursor_path(|| None), Err(CompletionError::CursorNotFound)));
    assert_eq!(svc.cursor_path(|| Some("/bin/agent".into())).unwrap(), "/bin/agent");
}
