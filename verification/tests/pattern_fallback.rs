use bashers::pattern::{pod_pattern_regex, Matcher};
use bashers::traits::{KubePatternToRegex, PatternToRegex};

#[test]
fn a_valid_pattern_is_compiled_as_it_is() {
    let matcher = pod_pattern_regex("api-.*");
    assert_eq!(matcher.as_str(), "api-.*");
    assert!(!matcher.is_literal());
    assert_eq!(matcher.try_match("api-1"), Some(true));
    assert_eq!(matcher.try_match("web-1"), Some(false));
}

#[test]
fn an_invalid_pattern_is_escaped_behind_the_ignore_case_flag() {
    let matcher = pod_pattern_regex("a.b(c");
    assert_eq!(matcher.as_str(), "(?i)a\\.b\\(c");
    assert!(matcher.is_literal());
    assert!(matcher.is_match("xA.B(Cx"));
    assert!(!matcher.is_match("aXb(c"));
}

#[test]
fn every_meta_character_gets_a_backslash() {
    let matcher = Matcher::from_outcome("\\.+*?()|[]{}^$#&-~x y%", false);
    assert_eq!(
        matcher.as_str(),
        "(?i)\\\\\\.\\+\\*\\?\\(\\)\\|\\[\\]\\{\\}\\^\\$\\#\\&\\-\\~x y%"
    );
}

#[test]
fn the_fallback_matches_the_text_it_was_made_from() {
    for text in ["[invalid", "pod(", "a{2,1}b", "**", "(?P<n>", "x\\", "é(", "("] {
        let matcher = pod_pattern_regex(text);
        assert!(matcher.is_literal(), "{text:?} is no valid regular expression");
        assert!(matcher.is_match(text), "{text:?} matches itself");
        assert!(matcher.is_match(&text.to_uppercase()));
        assert!(matcher.is_match(&format!("ns-{text}-0")));
    }
}

#[test]
fn compiling_never_fails() {
    for text in ["", " ", "\\", "[", "]", "(", ")", "{", "}", "*", "+", "?", "a**", "\u{0}", "日本語(", "(?i)x"] {
        let matcher = pod_pattern_regex(text);
        let _ = matcher.is_match(text);
        let _ = matcher.is_match("");
    }
}

#[test]
fn from_outcome_keeps_a_valid_pattern() {
    let matcher = Matcher::from_outcome("^web-[0-9]+$", true);
    assert_eq!(matcher.as_str(), "^web-[0-9]+$");
    assert!(!matcher.is_literal());
    assert!(matcher.is_match("web-12"));
    assert!(!matcher.is_match("web-x"));
    assert_eq!(matcher.duplicate().as_str(), "^web-[0-9]+$");
}

#[test]
fn a_pattern_that_does_not_compile_matches_nothing() {
    let matcher = Matcher::from_outcome("[", true);
    assert_eq!(matcher.try_match("["), None);
    assert!(!matcher.is_match("["));
}

#[test]
fn the_tracker_builds_patterns_the_same_way() {
    let built = KubePatternToRegex.build("[x");
    assert_eq!(built.as_str(), "(?i)\\[x");
    assert!(built.is_match("a[X"));
}
