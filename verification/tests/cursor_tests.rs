use cursor_brain::cursor::{
    agent_args, apply_event, parse_list_models_output, parse_stream_json_line, run_end_delta,
    spawn_working_dir, stream_delta_for_event, CompletionOutput, CursorEvent, SpawnOptions,
    StreamDelta,
};

fn text_of(ev: &Option<CursorEvent>) -> String {
    format!("{:?}", ev)
}

#[test]
fn stream_json_session_id_line() {
    let ev = parse_stream_json_line(r#"{"type":"session_id","session_id":"abc-123"}"#);
    assert!(matches!(ev, Some(CursorEvent::SessionId(ref s)) if s == "abc-123"));
}

#[test]
fn stream_json_text_and_result_lines() {
    let ev = parse_stream_json_line("  {\"type\":\"text\",\"text\":\"Hello\"}  ");
    assert!(matches!(ev, Some(CursorEvent::Text(ref s)) if s == "Hello"));
    let ev = parse_stream_json_line(r#"{"type":"result","result":"Final"}"#);
    assert!(matches!(ev, Some(CursorEvent::Result(ref s)) if s == "Final"));
    assert!(parse_stream_json_line(r#"{"type":"text"}"#).is_none());
}

#[test]
fn stream_json_thinking_lines() {
    let ev = parse_stream_json_line(r#"{"type":"thinking","text":"hmm"}"#);
    assert!(matches!(ev, Some(CursorEvent::Thinking { ref text }) if text == "hmm"));
    assert!(parse_stream_json_line(r#"{"type":"thinking","text":""}"#).is_none());
    assert!(parse_stream_json_line(r#"{"type":"thinking"}"#).is_none());
    let ev = parse_stream_json_line(r#"{"type":"thinking","subtype":"completed"}"#);
    assert!(matches!(ev, Some(CursorEvent::Thinking { ref text }) if text.is_empty()));
}

#[test]
fn stream_json_tool_call_line() {
    let ev = parse_stream_json_line(
        r#"{"type":"tool_call","subtype":"started","tool_call":{"readToolCall":{"args":{}}}}"#,
    );
    assert!(matches!(ev, Some(CursorEvent::ToolCall { ref subtype, ref tool })
        if subtype == "started" && tool == "readToolCall"));
    let ev = parse_stream_json_line(r#"{"type":"tool_call","tool_call":{}}"#);
    assert!(matches!(ev, Some(CursorEvent::ToolCall { ref subtype, ref tool })
        if subtype.is_empty() && tool.is_empty()));
    assert!(parse_stream_json_line(r#"{"type":"tool_call","tool_call":"x"}"#).is_none());
}

#[test]
fn stream_json_rejects_other_lines() {
    assert!(parse_stream_json_line("").is_none());
    assert!(parse_stream_json_line("   ").is_none());
    assert!(parse_stream_json_line("not json").is_none());
    assert!(parse_stream_json_line(r#"{"type":"unknown"}"#).is_none());
    assert!(parse_stream_json_line(r#"{"text":"x"}"#).is_none());
    assert!(parse_stream_json_line(r#"[1,2]"#).is_none());
    assert_eq!(text_of(&parse_stream_json_line(r#"{"type":7}"#)), "None");
}

fn fresh() -> CompletionOutput {
    CompletionOutput { finish_reason: "stop".to_string(), ..Default::default() }
}

#[test]
fn fold_text_appends_and_result_replaces() {
    let mut out = fresh();
    assert!(apply_event(&mut out, CursorEvent::Text("Hel".into()), "content").is_none());
    apply_event(&mut out, CursorEvent::Text("lo".into()), "content");
    assert_eq!(out.content, "Hello");
    apply_event(&mut out, CursorEvent::Result("Final".into()), "content");
    assert_eq!(out.content, "Final");
    assert_eq!(out.finish_reason, "stop");
}

#[test]
fn fold_routes_thinking_by_mode() {
    let mut out = fresh();
    apply_event(&mut out, CursorEvent::Thinking { text: "a".into() }, "content");
    apply_event(&mut out, CursorEvent::Thinking { text: "b".into() }, "content");
    assert_eq!(out.thinking_text, "ab");
    assert!(out.reasoning_content.is_none());

    let mut out = fresh();
    apply_event(&mut out, CursorEvent::Thinking { text: "a".into() }, "reasoning_content");
    apply_event(&mut out, CursorEvent::Thinking { text: "b".into() }, "reasoning_content");
    assert_eq!(out.reasoning_content.as_deref(), Some("ab"));
    assert_eq!(out.thinking_text, "");

    let mut out = fresh();
    apply_event(&mut out, CursorEvent::Thinking { text: "a".into() }, "off");
    assert!(out.has_no_content());
}

#[test]
fn fold_reports_session_ids() {
    let mut out = fresh();
    let sid = apply_event(&mut out, CursorEvent::SessionId("s1".into()), "content");
    assert_eq!(sid.as_deref(), Some("s1"));
    let none = apply_event(
        &mut out,
        CursorEvent::ToolCall { subtype: "x".into(), tool: "y".into() },
        "content",
    );
    assert!(none.is_none());
    assert!(out.has_no_content());
}

#[test]
fn output_emptiness() {
    let mut out = fresh();
    assert!(out.has_no_content());
    out.reasoning_content = Some(String::new());
    assert!(out.has_no_content());
    out.reasoning_content = Some("r".into());
    assert!(!out.has_no_content());
}

#[test]
fn stream_deltas_for_events() {
    let (d, s) = stream_delta_for_event(CursorEvent::Text("x".into()), "content");
    assert!(matches!(d, Some(StreamDelta::Content(ref c)) if c == "x"));
    assert!(s.is_none());
    let (d, _) = stream_delta_for_event(CursorEvent::Result("r".into()), "off");
    assert!(matches!(d, Some(StreamDelta::Content(ref c)) if c == "r"));
    let (d, _) = stream_delta_for_event(CursorEvent::Thinking { text: " deep \n".into() }, "content");
    assert!(matches!(d, Some(StreamDelta::Content(ref c)) if c == "\n\n> \u{1F4AD} deep\n\n"));
    let (d, _) =
        stream_delta_for_event(CursorEvent::Thinking { text: "t".into() }, "reasoning_content");
    assert!(matches!(d, Some(StreamDelta::ReasoningContent(ref c)) if c == "t"));
    let (d, _) = stream_delta_for_event(CursorEvent::Thinking { text: "t".into() }, "off");
    assert!(d.is_none());
    let (d, _) = stream_delta_for_event(CursorEvent::Thinking { text: "".into() }, "content");
    assert!(d.is_none());
    let (d, s) = stream_delta_for_event(CursorEvent::SessionId("sid".into()), "content");
    assert!(d.is_none());
    assert_eq!(s.as_deref(), Some("sid"));
}

#[test]
fn spawn_options_default() {
    let o = SpawnOptions::default();
    assert!(o.workspace_dir.is_none());
    assert_eq!(o.agent_mode, "agent");
    assert_eq!(o.sandbox, "enabled");
    assert!(o.allow_agent_write);
}

#[test]
fn agent_args_with_model_and_resume() {
    let o = SpawnOptions::default();
    let args = agent_args(Some(" gpt-5 "), Some("sess-1"), &o);
    assert_eq!(
        args,
        vec![
            "-p", "--output-format", "stream-json", "--stream-partial-output", "--trust",
            "--approve-mcps", "--force", "--mode", "agent", "--sandbox", "enabled", "--model",
            "gpt-5", "--resume", "sess-1"
        ]
    );
}

#[test]
fn agent_args_model_aliases_mean_auto() {
    let o = SpawnOptions {
        workspace_dir: None,
        agent_mode: "agent".into(),
        sandbox: "disabled".into(),
        allow_agent_write: false,
    };
    let base = vec![
        "-p", "--output-format", "stream-json", "--stream-partial-output", "--trust",
        "--approve-mcps", "--mode", "agent", "--sandbox", "disabled",
    ];
    for m in ["auto", "", "  ", "Cursor", "CURSOR-DEFAULT", "default"] {
        assert_eq!(agent_args(Some(m), Some(""), &o), base, "model {:?}", m);
    }
    assert_eq!(agent_args(None, None, &o), base);
    let mut with = base.clone();
    with.extend(["--model", "AUTO"]);
    assert_eq!(agent_args(Some("AUTO"), None, &o), with);
}

#[test]
fn working_dir_only_when_not_blank() {
    let mut o = SpawnOptions::default();
    assert!(spawn_working_dir(&o).is_none());
    o.workspace_dir = Some(String::new());
    assert!(spawn_working_dir(&o).is_none());
    o.workspace_dir = Some("/tmp/ws".into());
    assert_eq!(spawn_working_dir(&o).as_deref(), Some("/tmp/ws"));
}

#[test]
fn list_models_from_json_array() {
    assert_eq!(
        parse_list_models_output(r#" ["auto", "", 3, "gpt-5"] "#),
        vec!["auto".to_string(), "gpt-5".to_string()]
    );
}

#[test]
fn list_models_from_text_table() {
    let out = "Available models\n|---|\n- header\nauto - Auto\nsonnet-4.5  Sonnet\nbad!id x\n\n  gpt_5.1 \r\n";
    assert_eq!(
        parse_list_models_output(out),
        vec!["Available", "auto", "sonnet-4.5", "gpt_5.1"]
    );
}

#[test]
fn list_models_empty_or_unusable() {
    assert!(parse_list_models_output("").is_empty());
    assert!(parse_list_models_output("  \n ").is_empty());
    assert!(parse_list_models_output("[]").is_empty());
    assert_eq!(parse_list_models_output("42"), vec!["42".to_string()]);
}

#[test]
fn run_starts_empty_and_ends_with_its_reason() {
    let o = CompletionOutput::started();
    assert_eq!(o.finish_reason, "stop");
    assert!(o.has_no_content());
    assert!(matches!(run_end_delta(true), StreamDelta::Done { finish_reason } if finish_reason == "timeout"));
    assert!(matches!(run_end_delta(false), StreamDelta::Done { finish_reason } if finish_reason == "stop"));
}

#[test]
fn timeout_marks_the_run() {
    let mut o = CompletionOutput::started();
    o.content.push_str("partial");
    assert!(!o.timed_out());
    o.mark_timed_out();
    assert!(o.timed_out());
    assert_eq!(o.finish_reason, "timeout");
    assert_eq!(o.content, "partial");
}
