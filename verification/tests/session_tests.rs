use cursor_brain::session::{cache_capacity, expand_tilde, expand_tilde_in, session_cache_from_text, SessionCache};

#[test]
fn read_after_write() {
    let mut c = SessionCache::new(2);
    c.put("ext".into(), "cur-1".into());
    assert_eq!(c.get("ext").as_deref(), Some("cur-1"));
    c.put("ext".into(), "cur-2".into());
    assert_eq!(c.get("ext").as_deref(), Some("cur-2"));
    assert_eq!(c.entry_list().len(), 1);
}

#[test]
fn remove_forgets_only_that_key() {
    let mut c = SessionCache::new(4);
    c.put("a".into(), "1".into());
    c.put("b".into(), "2".into());
    c.remove("a");
    assert!(c.get("a").is_none());
    assert_eq!(c.get("b").as_deref(), Some("2"));
    c.remove("zzz");
    assert_eq!(c.entry_list(), vec![("b".to_string(), "2".to_string())]);
}

#[test]
fn least_recently_used_is_evicted() {
    let mut c = SessionCache::new(2);
    c.put("a".into(), "1".into());
    c.put("b".into(), "2".into());
    assert_eq!(c.get("a").as_deref(), Some("1"));
    c.put("c".into(), "3".into());
    assert!(c.get("b").is_none());
    assert_eq!(c.get("a").as_deref(), Some("1"));
    assert_eq!(c.get("c").as_deref(), Some("3"));
    assert_eq!(
        c.entry_list(),
        vec![("c".to_string(), "3".to_string()), ("a".to_string(), "1".to_string())]
    );
}

#[test]
fn restore_from_session_file_text() {
    let c = session_cache_from_text(10, Some(r#"{"x":"1","y":"2"}"#));
    let mut l = c.entry_list();
    l.sort();
    assert_eq!(l, vec![("x".to_string(), "1".to_string()), ("y".to_string(), "2".to_string())]);
    assert!(session_cache_from_text(10, Some(r#"{"x":1}"#)).entry_list().is_empty());
    assert!(session_cache_from_text(10, Some("garbage")).entry_list().is_empty());
    assert!(session_cache_from_text(10, None).entry_list().is_empty());
    assert_eq!(session_cache_from_text(1, Some(r#"{"x":"1","y":"2"}"#)).entry_list().len(), 1);
}

#[test]
fn capacity_is_at_least_one() {
    assert_eq!(cache_capacity(0), 1);
    assert_eq!(cache_capacity(7), 7);
}

#[test]
fn tilde_paths() {
    assert_eq!(expand_tilde_in("/home/u", "~/data/s.json"), "/home/u/data/s.json");
    assert_eq!(expand_tilde_in("/home/u", "  ~//x "), "/home/u/x");
    assert_eq!(expand_tilde_in("/home/u", "~"), "/home/u/");
    assert_eq!(expand_tilde_in("/home/u", "/abs/path"), "/abs/path");
    assert_eq!(expand_tilde_in("/home/u", "~user/x"), "~user/x");
    assert_eq!(expand_tilde(" relative "), " relative ");
}

#[test]
fn tilde_paths_use_the_home_directory() {
    let home = cursor_brain::config::cursor_brain_home_dir();
    assert_eq!(expand_tilde("~/a/s.json"), expand_tilde_in(&home, "~/a/s.json"));
    assert!(expand_tilde("~/a/s.json").ends_with("s.json"));
    assert!(expand_tilde("~/a/s.json").starts_with(&home));
    assert_eq!(expand_tilde("/v/s.json"), "/v/s.json");
    assert_eq!(expand_tilde_in("/home/u/", "~\\x"), "/home/u/x");
}
