use recommend_gateway::text::{ends_with, trim_end_matches};

#[test]
fn ends_with_finds_a_suffix() {
    assert!(ends_with("http://host:8001/predict", "/predict"));
    assert!(ends_with("/predict", "/predict"));
    assert!(ends_with("abc", "c"));
}

#[test]
fn ends_with_misses_what_is_not_at_the_end() {
    assert!(!ends_with("http://host:8001/predict/", "/predict"));
    assert!(!ends_with("http://host:8001/predic", "/predict"));
    assert!(!ends_with("/predict/x", "/predict"));
    assert!(!ends_with("http://host:8001/Predict", "/predict"));
}

#[test]
fn ends_with_handles_short_and_empty_text() {
    assert!(!ends_with("", "/predict"));
    assert!(!ends_with("predict", "/predict"));
    assert!(ends_with("", ""));
    assert!(ends_with("anything", ""));
}

#[test]
fn ends_with_counts_characters_not_bytes() {
    assert!(ends_with("caf\u{e9}/predict", "/predict"));
    assert!(ends_with("na\u{ef}ve", "\u{ef}ve"));
    assert!(!ends_with("na\u{ef}ve", "ive"));
    assert!(ends_with("\u{1f980}", "\u{1f980}"));
}

#[test]
fn ends_with_agrees_with_the_standard_library() {
    let texts = ["", "/", "/predict", "a/predict", "/predict/", "predict", "x//predict", "\u{e9}/predict"];
    let suffixes = ["", "/", "/predict", "t", "predict/", "\u{e9}"];
    for text in texts {
        for suffix in suffixes {
            assert_eq!(ends_with(text, suffix), text.ends_with(suffix));
        }
    }
}

#[test]
fn trim_end_matches_cuts_every_trailing_slash() {
    assert_eq!(trim_end_matches("http://host:8001/", '/'), "http://host:8001");
    assert_eq!(trim_end_matches("http://host:8001///", '/'), "http://host:8001");
}

#[test]
fn trim_end_matches_leaves_other_text_alone() {
    assert_eq!(trim_end_matches("http://host:8001", '/'), "http://host:8001");
    assert_eq!(trim_end_matches("/a/b", '/'), "/a/b");
    assert_eq!(trim_end_matches("", '/'), "");
}

#[test]
fn trim_end_matches_can_cut_everything() {
    assert_eq!(trim_end_matches("/", '/'), "");
    assert_eq!(trim_end_matches("////", '/'), "");
}

#[test]
fn trim_end_matches_keeps_inner_slashes() {
    assert_eq!(trim_end_matches("a//b//", '/'), "a//b");
}

#[test]
fn trim_end_matches_counts_characters_not_bytes() {
    assert_eq!(trim_end_matches("h\u{f4}st//", '/'), "h\u{f4}st");
    assert_eq!(trim_end_matches("a\u{e9}\u{e9}", '\u{e9}'), "a");
}

#[test]
fn trim_end_matches_agrees_with_the_standard_library() {
    for text in ["", "/", "//", "a", "a/", "a//", "/a", "/a/", "a/b//", "\u{e9}/", "http://h:1/predict/"] {
        assert_eq!(trim_end_matches(text, '/'), text.trim_end_matches('/'));
    }
}
