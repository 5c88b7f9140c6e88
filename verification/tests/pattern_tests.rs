use pika_first_setup::pattern::{
    has_uppercase, is_hostname_text, pattern_matches, HOSTNAME_PATTERN, UPPERCASE_PATTERN,
};

#[test]
fn has_uppercase_finds_ascii_capitals() {
    assert!(has_uppercase("johnDoe"));
    assert!(!has_uppercase("johndoe"));
    assert!(!has_uppercase("émile"));
    assert!(!has_uppercase("Ärger"));
}

#[test]
fn hostname_text_allows_letters_digits_dots() {
    assert!(is_hostname_text("pika.local"));
    assert!(is_hostname_text("PC42"));
    assert!(is_hostname_text(""));
    assert!(!is_hostname_text("pika-os"));
    assert!(!is_hostname_text("my host"));
}

#[test]
fn pattern_matches_reports_invalid_patterns() {
    assert_eq!(pattern_matches("(", "x"), None);
}

#[test]
fn pattern_matches_other_patterns() {
    assert_eq!(pattern_matches("a+b", "xaab"), Some(true));
    assert_eq!(pattern_matches("a+b", "xb"), Some(false));
    assert_eq!(pattern_matches(UPPERCASE_PATTERN, "aB"), Some(true));
    assert_eq!(pattern_matches(HOSTNAME_PATTERN, "a_b"), Some(false));
}
