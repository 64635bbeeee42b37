use cursor_brain::config::{
    brain_path, config_from_json, config_from_text, cursor_brain_home_dir, cursor_search_paths_in,
    detect_cursor_path_from,
    home_or_current, pick_cursor_path,
    Config, DEFAULT_PORT,
};
use cursor_brain::json::JsonValue;

fn defaults() -> Config {
    config_from_text(None)
}

#[test]
fn no_file_gives_defaults() {
    let c = defaults();
    assert!(c.cursor_path.is_none());
    assert_eq!(c.port, DEFAULT_PORT);
    assert_eq!(c.bind_address, "0.0.0.0");
    assert_eq!(c.request_timeout_sec, 300);
    assert_eq!(c.session_cache_max, 1000);
    assert_eq!(c.session_header_name, "x-session-id");
    assert!(c.default_model.is_none() && c.fallback_model.is_none());
    assert!(c.minimal_workspace_dir.is_none());
    assert_eq!(c.agent_mode, "agent");
    assert_eq!(c.sandbox, "enabled");
    assert!(c.allow_agent_write);
    assert_eq!(c.forward_thinking, "content");
}

#[test]
fn unparsable_or_empty_file_gives_defaults() {
    for text in ["not json", "{}", "[1,2]", "{\"unknown\": 1}"] {
        let c = config_from_text(Some(text));
        assert_eq!(format!("{:?}", c), format!("{:?}", defaults()), "text {:?}", text);
    }
}

#[test]
fn keys_override_and_clamp() {
    let c = config_from_text(Some(
        r#"{"port": 0, "request_timeout_sec": 0, "session_cache_max": 5000000,
            "bind_address": "127.0.0.1", "session_header_name": "",
            "default_model": "gpt-5", "fallback_model": "", "cursor_path": "",
            "minimal_workspace_dir": "/ws", "agent_mode": "ask", "sandbox": "disabled",
            "allow_agent_write": false, "forward_thinking": "Reasoning_Content"}"#,
    ));
    assert_eq!(c.port, 1);
    assert_eq!(c.request_timeout_sec, 1);
    assert_eq!(c.session_cache_max, 1_000_000);
    assert_eq!(c.bind_address, "127.0.0.1");
    assert_eq!(c.session_header_name, "x-session-id");
    assert_eq!(c.default_model.as_deref(), Some("gpt-5"));
    assert!(c.fallback_model.is_none());
    assert_eq!(c.cursor_path.as_deref(), Some(""));
    assert_eq!(c.minimal_workspace_dir.as_deref(), Some("/ws"));
    assert_eq!(c.agent_mode, "ask");
    assert_eq!(c.sandbox, "disabled");
    assert!(!c.allow_agent_write);
    assert_eq!(c.forward_thinking, "reasoning_content");
}

#[test]
fn port_and_mode_edges() {
    assert_eq!(config_from_text(Some(r#"{"port": 70000}"#)).port, 65535);
    assert_eq!(config_from_text(Some(r#"{"port": 8080}"#)).port, 8080);
    assert_eq!(config_from_text(Some(r#"{"port": -5}"#)).port, 3001);
    assert_eq!(config_from_text(Some(r#"{"port": "80"}"#)).port, 3001);
    assert_eq!(config_from_text(Some(r#"{"session_cache_max": 0}"#)).session_cache_max, 1);
    assert_eq!(config_from_text(Some(r#"{"forward_thinking": "OFF"}"#)).forward_thinking, "off");
    assert_eq!(config_from_text(Some(r#"{"forward_thinking": "loud"}"#)).forward_thinking, "content");
}

#[test]
fn parsed_document_applies() {
    let v = JsonValue::Object(vec![("port".to_string(), JsonValue::Number(Some(4000)))]);
    assert_eq!(config_from_json(Some(&v)).port, 4000);
    assert_eq!(config_from_json(None).port, 3001);
}

#[test]
fn configured_cursor_path_must_exist() {
    let mut c = defaults();
    c.cursor_path = Some("/definitely/not/here/agent".into());
    assert_eq!(c.resolve_cursor_path(|| Some("found".to_string())).as_deref(), Some("found"));
    c.cursor_path = Some(String::new());
    assert!(c.resolve_cursor_path(|| None).is_none());
    let existing = ".".to_string();
    c.cursor_path = Some(existing.clone());
    assert_eq!(c.resolve_cursor_path(|| None), Some(existing));
}

#[test]
fn workspace_dir_prefers_configured() {
    let mut c = defaults();
    c.minimal_workspace_dir = Some("/my/ws".into());
    assert_eq!(c.workspace_dir_for_spawn().as_deref(), Some("/my/ws"));
    c.minimal_workspace_dir = Some(String::new());
    let d = c.workspace_dir_for_spawn().unwrap();
    assert!(d.ends_with("workspace"));
    assert!(d.contains(".cursor-brain"));
}

#[test]
fn brain_paths_under_home() {
    assert_eq!(brain_path("/home/u", "sessions.json"), "/home/u/.cursor-brain/sessions.json");
    assert_eq!(brain_path("/home/u/", "x"), "/home/u/.cursor-brain/x");
    assert!(cursor_brain::config::default_session_file_path().ends_with("sessions.json"));
    assert!(cursor_brain::config::pid_file_path().ends_with("cursor-brain.pid"));
}

#[test]
fn detection_uses_lookup_output_then_candidates() {
    let exe = ".".to_string();
    let out = format!("  {}  \nsecond\n", exe);
    assert_eq!(detect_cursor_path_from(Some(&out), &vec![]), Some(exe.clone()));
    let cands = vec!["/nope/agent".to_string(), exe.clone()];
    assert_eq!(detect_cursor_path_from(Some("/nope/x\n"), &cands), Some(exe.clone()));
    assert_eq!(detect_cursor_path_from(None, &vec!["/nope".to_string()]), None);
    assert_eq!(detect_cursor_path_from(Some(""), &vec![]), None);
}

#[test]
fn picking_follows_the_existence_answers() {
    let cands = vec!["/a/agent".to_string(), "/b/agent".to_string(), "/c/agent".to_string()];
    let out = " /usr/bin/agent \n/other\n";
    assert_eq!(pick_cursor_path(Some(out), true, &cands, &vec![true, true, true]), Some("/usr/bin/agent".to_string()));
    assert_eq!(pick_cursor_path(Some(out), false, &cands, &vec![false, true, true]), Some("/b/agent".to_string()));
    assert_eq!(pick_cursor_path(Some("  \n"), true, &cands, &vec![false, false, true]), Some("/c/agent".to_string()));
    assert_eq!(pick_cursor_path(Some(""), true, &cands, &vec![true, true, true]), None);
    assert_eq!(pick_cursor_path(None, true, &cands, &vec![false, false, false]), None);
    assert_eq!(pick_cursor_path(None, false, &cands, &vec![false]), None);
}

#[test]
fn data_root_is_home_or_current_dir() {
    assert_eq!(home_or_current(Some("/home/u".to_string())), "/home/u");
    assert_eq!(home_or_current(None), ".");
    assert!(!cursor_brain_home_dir().is_empty());
}

#[test]
fn configured_path_used_when_it_exists() {
    let mut c = defaults();
    c.cursor_path = Some("/opt/agent".into());
    assert_eq!(c.resolve_cursor_path_given(true, || Some("found".to_string())), Some("/opt/agent".to_string()));
    assert_eq!(c.resolve_cursor_path_given(false, || Some("found".to_string())), Some("found".to_string()));
    c.cursor_path = Some(String::new());
    assert_eq!(c.resolve_cursor_path_given(true, || None), None);
    c.cursor_path = None;
    assert_eq!(c.resolve_cursor_path_given(true, || Some("d".to_string())), Some("d".to_string()));
}

#[test]
fn default_paths_lie_under_the_data_root() {
    let home = cursor_brain_home_dir();
    let sep = std::path::MAIN_SEPARATOR;
    let root = if home.ends_with(sep) { home.clone() } else { format!("{}{}", home, sep) };
    assert_eq!(
        cursor_brain::config::default_session_file_path(),
        format!("{}.cursor-brain{}sessions.json", root, sep)
    );
    assert_eq!(
        cursor_brain::config::default_minimal_workspace_dir(),
        format!("{}.cursor-brain{}workspace", root, sep)
    );
    assert_eq!(
        cursor_brain::config::pid_file_path(),
        format!("{}.cursor-brain{}cursor-brain.pid", root, sep)
    );
    assert_eq!(brain_path(".", "workspace"), format!(".{}.cursor-brain{}workspace", sep, sep));
}

#[test]
fn search_paths_per_platform() {
    let sep = std::path::MAIN_SEPARATOR;
    let j = |parts: &[&str]| parts.join(&sep.to_string());
    assert_eq!(
        cursor_search_paths_in("/home/u", false, None),
        vec![j(&["/home/u", ".local", "bin", "agent"]), "/usr/local/bin/agent".to_string(), j(&["/home/u", ".cursor", "bin", "agent"])]
    );
    let w = cursor_search_paths_in("/home/u", true, Some("/lad"));
    assert_eq!(w.len(), 5);
    assert_eq!(w[0], j(&["/lad", "Programs", "cursor", "resources", "app", "bin", "agent.exe"]));
    assert_eq!(w[1], j(&["/lad", "cursor-agent", "agent.cmd"]));
    assert_eq!(w[2], j(&["/home/u", ".cursor", "bin", "agent.exe"]));
    assert_eq!(w[3], j(&["/home/u", ".cursor", "bin", "agent.cmd"]));
    assert_eq!(w[4], j(&["/home/u", ".local", "bin", "agent.exe"]));
    let w = cursor_search_paths_in("/home/u", true, None);
    assert_eq!(w[1], j(&["/home/u", "AppData", "Local", "cursor-agent", "agent.cmd"]));
}
