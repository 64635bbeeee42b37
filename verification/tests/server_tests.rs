use cursor_brain::cursor::StreamDelta;
use cursor_brain::metrics::Metrics;
use cursor_brain::server::{
    chunk_for_delta, completion_error_to_http, completions_501, create_chat_error,
    created_chat_id, embeddings_501, has_model, health_report, model_not_found,
    models_after_listing, not_found, request_id_for, run_error_delta, spawn_error_delta, subcommand_error,
    subcommand_raw, AgentCallFailure, ModelListing,
};
use cursor_brain::service::CompletionError;

#[test]
fn completion_errors_map_to_statuses() {
    let r = completion_error_to_http(&CompletionError::CursorNotFound);
    assert_eq!(r.status, 503);
    assert_eq!(r.body.error.code.as_deref(), Some("cursor_not_found"));
    let r = completion_error_to_http(&CompletionError::InvalidRequest("bad".into()));
    assert_eq!((r.status, r.body.error.message.as_str()), (400, "bad"));
    assert_eq!(r.body.error.type_.as_deref(), Some("invalid_request_error"));
    let r = completion_error_to_http(&CompletionError::NoContent);
    assert_eq!((r.status, r.body.error.code.as_deref()), (503, Some("no_response")));
    let r = completion_error_to_http(&CompletionError::SpawnFailed("No such file".into()));
    assert_eq!(r.body.error.message, "Failed to start cursor-agent: No such file");
    let r = completion_error_to_http(&CompletionError::Timeout);
    assert_eq!(r.status, 504);
    assert_eq!(r.body.error.code.as_deref(), Some("timeout"));
    assert_eq!(r.body.error.type_.as_deref(), Some("gateway_timeout"));
    assert_eq!(r.body.error.message, "cursor-agent did not finish within request_timeout_sec.");
    let r = completion_error_to_http(&CompletionError::JoinFailed("panic".into()));
    assert_eq!((r.status, r.body.error.code.is_none()), (500, true));
}

#[test]
fn fixed_error_answers() {
    assert_eq!(not_found().status, 404);
    assert_eq!(embeddings_501().body.error.code.as_deref(), Some("not_implemented"));
    assert_eq!(completions_501().status, 501);
    assert_eq!(model_not_found().body.error.code.as_deref(), Some("model_not_found"));
    assert_eq!(subcommand_error(AgentCallFailure::TimedOut).status, 504);
    assert_eq!(subcommand_error(AgentCallFailure::Failed).status, 500);
    assert_eq!(create_chat_error(AgentCallFailure::TimedOut).body.error.message, "cursor-agent create-chat timed out.");
}

#[test]
fn agent_outputs() {
    assert_eq!(created_chat_id("  abc \n").unwrap(), "abc");
    assert_eq!(created_chat_id("   ").unwrap_err().status, 503);
    assert_eq!(subcommand_raw("", "err"), "err");
    assert_eq!(subcommand_raw("out", "err"), "out");
    assert_eq!(subcommand_raw("", ""), "");
}

#[test]
fn model_listing_counts_outcomes() {
    let mut m = Metrics::default();
    assert_eq!(models_after_listing(&mut m, ModelListing::Listed(vec!["x".into()])), vec!["x"]);
    assert_eq!(models_after_listing(&mut m, ModelListing::Listed(vec![])), vec!["auto", "cursor-default"]);
    assert_eq!(models_after_listing(&mut m, ModelListing::TimedOut), vec!["auto", "cursor-default"]);
    models_after_listing(&mut m, ModelListing::Failed);
    models_after_listing(&mut m, ModelListing::NoCursor);
    assert_eq!(m.snapshot(), (0, 2, 2, 1));
    let ids = vec!["auto".to_string(), "gpt-5".to_string()];
    assert!(has_model(&ids, "gpt-5"));
    assert!(!has_model(&ids, "gpt"));
}

#[test]
fn health_reports() {
    let h = health_report(true, 3001, Some("1.2".into()), "0.1.0");
    assert_eq!((h.status.as_str(), h.cursor, h.port), ("ok", true, 3001));
    assert_eq!(h.session_storage, "file");
    assert_eq!(h.cursor_agent_version, "1.2");
    let h = health_report(false, 1, None, "v");
    assert_eq!((h.status.as_str(), h.cursor_agent_version.as_str()), ("degraded", "unknown"));
}

#[test]
fn deltas_become_chunks() {
    let (c, end) = chunk_for_delta("id", "m", &StreamDelta::Content("x".into()));
    assert_eq!((c.choices[0].delta.content.as_deref(), end), (Some("x"), false));
    let (c, end) = chunk_for_delta("id", "m", &StreamDelta::ReasoningContent("r".into()));
    assert_eq!((c.choices[0].delta.reasoning_content.as_deref(), end), (Some("r"), false));
    let (c, end) = chunk_for_delta("id", "m", &StreamDelta::Done { finish_reason: "stop".into() });
    assert_eq!((c.choices[0].finish_reason.as_deref(), end), (Some("stop"), true));
    match spawn_error_delta("boom") {
        StreamDelta::Done { finish_reason } => assert_eq!(finish_reason, "spawn_error: boom"),
        other => panic!("unexpected {:?}", other),
    }
}

#[test]
fn request_ids() {
    assert_eq!(request_id_for(Some("req-7")), "req-7");
    assert_eq!(request_id_for(Some(" req ")), " req ");
    let fresh = request_id_for(Some("  "));
    assert_eq!(fresh.len(), 36);
    assert_eq!(fresh.matches('-').count(), 4);
    assert_ne!(request_id_for(None), fresh);
    let cs: Vec<char> = fresh.chars().collect();
    assert_eq!(cs[14], '4');
    assert!(matches!(cs[19], '8' | '9' | 'a' | 'b'));
}

#[test]
fn run_error_ends_the_stream() {
    match run_error_delta("no stdout") {
        StreamDelta::Done { finish_reason } => assert_eq!(finish_reason, "run_error: no stdout"),
        _ => panic!("expected a final delta"),
    }
}
