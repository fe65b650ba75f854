use checkalot::strutil::{join_path, split_tokens, trim_str};

#[test]
fn trim_removes_surrounding_whitespace() {
    assert_eq!(trim_str("  abc\n"), "abc");
    assert_eq!(trim_str("\t a b \r\n"), "a b");
    assert_eq!(trim_str("abc"), "abc");
    assert_eq!(trim_str("   \n\t"), "");
    assert_eq!(trim_str(""), "");
}

#[test]
fn split_yields_whitespace_delimited_tokens() {
    assert_eq!(split_tokens("tool version 3.4.1 (abc)"), vec![
        "tool", "version", "3.4.1", "(abc)"
    ]);
    assert_eq!(split_tokens("  padded\ttokens \n"), vec!["padded", "tokens"]);
    assert!(split_tokens("   ").is_empty());
    assert!(split_tokens("").is_empty());
}

#[test]
fn join_appends_relative_paths() {
    assert_eq!(join_path("/repo", "sub"), "/repo/sub");
    assert_eq!(join_path("/repo/", "sub"), "/repo/sub");
}

#[test]
fn join_keeps_absolute_paths() {
    assert_eq!(join_path("/repo", "/abs/path"), "/abs/path");
}
