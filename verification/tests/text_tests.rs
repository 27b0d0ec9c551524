use steve::text::{
    chars_of, decimal_string, join_with_newlines, special_truncate, split_at_newlines, str_contains,
    str_starts_with,
};

#[test]
fn special_truncate_keeps_short_names() {
    assert_eq!(special_truncate("Never Gonna Give"), "Never Gonna Give");
    assert_eq!(special_truncate("12345678901234567"), "12345678901234567");
    assert_eq!(special_truncate(""), "");
}

#[test]
fn special_truncate_cuts_long_names() {
    assert_eq!(special_truncate("123456789012345678"), "12345678901234567...");
    assert_eq!(
        special_truncate("Never Gonna Give You Up (Official Video)"),
        "Never Gonna Give ..."
    );
}

#[test]
fn special_truncate_counts_characters_not_bytes() {
    let name = "ééééééééééééééééééé"; // 19 characters, 38 bytes
    assert_eq!(special_truncate(name), "ééééééééééééééééé...");
}

#[test]
fn chars_of_lists_characters() {
    assert_eq!(chars_of("aé\n"), vec!['a', 'é', '\n']);
    assert!(chars_of("").is_empty());
}

#[test]
fn decimal_string_writes_numbers() {
    assert_eq!(decimal_string(0), "0");
    assert_eq!(decimal_string(7), "7");
    assert_eq!(decimal_string(10), "10");
    assert_eq!(decimal_string(1234567890), "1234567890");
    assert_eq!(decimal_string(u64::MAX), u64::MAX.to_string());
}

#[test]
fn str_contains_finds_substrings() {
    assert!(str_contains("https://youtube.com/playlist?list=1", "youtube"));
    assert!(str_contains("https://youtube.com/playlist?list=1", "playlist"));
    assert!(!str_contains("https://example.com", "youtube"));
    assert!(str_contains("abc", ""));
    assert!(!str_contains("ab", "abc"));
    assert!(str_contains("abc", "abc"));
    assert!(str_contains("xxabc", "abc"));
}

#[test]
fn str_starts_with_checks_prefix() {
    assert!(str_starts_with("https://a", "http"));
    assert!(!str_starts_with("never gonna", "http"));
    assert!(!str_starts_with("htt", "http"));
    assert!(str_starts_with("x", ""));
}

#[test]
fn join_with_newlines_joins() {
    let v = vec!["a".to_string(), "b".to_string(), "".to_string()];
    assert_eq!(join_with_newlines(&v), "a\nb\n");
    assert_eq!(join_with_newlines(&vec![]), "");
    assert_eq!(join_with_newlines(&vec!["only".to_string()]), "only");
}

#[test]
fn split_at_newlines_matches_std_split() {
    for s in ["", "a", "a\nb", "a\n", "\n", "\n\nx\n", "héllo\nwörld"] {
        let expected: Vec<String> = s.split('\n').map(|p| p.to_string()).collect();
        assert_eq!(split_at_newlines(s), expected);
    }
}

#[test]
fn split_after_join_gives_back_lines() {
    let v = vec!["Song A".to_string(), "Song B".to_string(), "".to_string(), "C".to_string()];
    assert_eq!(split_at_newlines(&join_with_newlines(&v)), v);
}

#[test]
fn join_after_split_gives_back_string() {
    let s = "x\n\ny\n";
    assert_eq!(join_with_newlines(&split_at_newlines(s)), s);
}
