use stage1_init::paths::{join_colon, mangle_env, path_in_root, split_str, str_equal,
    str_starts_with};

#[test]
fn path_in_root_absolute_is_reanchored() {
    assert_eq!(path_in_root("/approot", "/usr/bin"), "/approot/usr/bin");
}

#[test]
fn path_in_root_relative_is_joined_unchanged() {
    assert_eq!(path_in_root("/approot", "usr/bin"), "/approot/usr/bin");
}

#[test]
fn path_in_root_strips_every_leading_separator() {
    assert_eq!(path_in_root("/r", "///x"), "/r/x");
}

#[test]
fn path_in_root_empty_path() {
    assert_eq!(path_in_root("/r", ""), "/r/");
}

#[test]
fn mangle_env_three_segments() {
    assert_eq!(mangle_env("/r", "a:b:c"), "/r/a:/r/b:/r/c");
}

#[test]
fn mangle_env_absolute_segments() {
    assert_eq!(mangle_env("/r", "/usr/bin:/bin"), "/r/usr/bin:/r/bin");
}

#[test]
fn mangle_env_passes_empty_segments_through() {
    // ":" splits into two empty segments; both stay empty, so the adjacent
    // delimiter is preserved exactly
    assert_eq!(mangle_env("/r", ":"), ":");
    assert_eq!(mangle_env("/r", "a::b"), "/r/a::/r/b");
    assert_eq!(mangle_env("/r", ":a:"), ":/r/a:");
}

#[test]
fn mangle_env_single_empty_input() {
    assert_eq!(mangle_env("/r", ""), "");
}

#[test]
fn mangle_env_preserves_order_and_count() {
    let out = mangle_env("/r", "b:a:c:a");
    assert_eq!(out, "/r/b:/r/a:/r/c:/r/a");
    assert_eq!(out.split(':').count(), 4);
}

#[test]
fn split_and_join_round_trip() {
    let parts = split_str("a::b:", ':');
    assert_eq!(parts, vec!["a".to_string(), "".to_string(), "b".to_string(), "".to_string()]);
    assert_eq!(join_colon(&parts), "a::b:");
}

#[test]
fn str_helpers() {
    assert!(str_equal("abc", "abc"));
    assert!(!str_equal("abc", "abd"));
    assert!(!str_equal("abc", "ab"));
    assert!(str_starts_with("/r/x", "/r/"));
    assert!(!str_starts_with("/q/x", "/r/"));
    assert!(!str_starts_with("/r", "/r/"));
}
