use cursor_brain::text::{
    chars_of, leading_word_of, lines_of, str_eq, str_eq_ignore_ascii_case, trim_str,
};

#[test]
fn trim_removes_unicode_whitespace_at_both_ends() {
    assert_eq!(trim_str("  \t hello world \n"), "hello world");
    assert_eq!(trim_str("\u{a0}\u{3000}x\u{2028}"), "x");
    assert_eq!(trim_str("   "), "");
    assert_eq!(trim_str(""), "");
    assert_eq!(trim_str("a b"), "a b");
}

#[test]
fn lines_follow_str_lines() {
    for s in ["", "a", "a\n", "a\nb", "a\r\nb\r\n", "\n", "a\n\nb", "x\r", "a\rb\nc"] {
        let expected: Vec<&str> = s.lines().collect();
        assert_eq!(lines_of(s), expected, "input {:?}", s);
    }
}

#[test]
fn ascii_case_insensitive_equality() {
    assert!(str_eq_ignore_ascii_case("USER", "user"));
    assert!(str_eq_ignore_ascii_case("Cursor-Default", "cursor-default"));
    assert!(!str_eq_ignore_ascii_case("users", "user"));
    assert!(!str_eq_ignore_ascii_case("\u{212a}", "k"));
    assert!(str_eq("abc", "abc"));
    assert!(!str_eq("abc", "abd"));
}

#[test]
fn leading_word_stops_at_whitespace() {
    assert_eq!(leading_word_of("gpt-5 - GPT 5"), "gpt-5");
    assert_eq!(leading_word_of("single"), "single");
    assert_eq!(chars_of("h\u{e9}"), vec!['h', '\u{e9}']);
}
