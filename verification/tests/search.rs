use amai_music_player::search::{
    contains_non_english_chars, path_matches_query, str_contains, to_lowercase,
};

#[test]
fn contains_finds_inner_substring() {
    assert!(str_contains("hello world", "lo w"));
}

#[test]
fn contains_finds_prefix_and_suffix() {
    assert!(str_contains("hello", "he"));
    assert!(str_contains("hello", "llo"));
    assert!(str_contains("hello", "hello"));
}

#[test]
fn contains_rejects_absent_needle() {
    assert!(!str_contains("hello", "world"));
    assert!(!str_contains("abc", "abcd"));
}

#[test]
fn contains_accepts_empty_needle() {
    assert!(str_contains("abc", ""));
    assert!(str_contains("", ""));
}

#[test]
fn contains_handles_non_ascii_text() {
    assert!(str_contains("sömething élse", "g él"));
    assert!(!str_contains("sömething", "ö1"));
}

#[test]
fn lowercase_folds_ascii_and_more() {
    assert_eq!(to_lowercase("AbC"), "abc".to_string());
    assert_eq!(to_lowercase("ÄBC"), "äbc".to_string());
    assert_eq!(to_lowercase(""), String::new());
}

#[test]
fn non_english_chars_absent_in_alphanumerics() {
    assert!(!contains_non_english_chars("Song123"));
    assert!(!contains_non_english_chars(""));
}

#[test]
fn non_english_chars_found_in_accents_and_spaces() {
    assert!(contains_non_english_chars("söng"));
    assert!(contains_non_english_chars("a b"));
    assert!(contains_non_english_chars("日本語"));
    assert!(contains_non_english_chars("track-01"));
}

#[test]
fn query_match_is_case_insensitive_both_ways() {
    assert!(path_matches_query("music/abc.mp3", "ABC"));
    assert!(path_matches_query("music/ABC.mp3", "abc"));
}

#[test]
fn query_match_rejects_absent_query() {
    assert!(!path_matches_query("music/abc.mp3", "xyz"));
}

#[test]
fn empty_query_matches_everything() {
    assert!(path_matches_query("music/abc.mp3", ""));
}
