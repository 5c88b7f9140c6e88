use pika_first_setup::text::{
    can_cut_to_limit, chars_of, contains, cut_to_limit, lowercased, only_alphanumeric, same_text,
    string_from_chars, strip_suffix, trim_end_matches, uppercase_first_letter, FIELD_BYTE_LIMIT,
};

#[test]
fn only_alphanumeric_accepts_letters_and_digits() {
    assert!(only_alphanumeric("abc123"));
    assert!(only_alphanumeric("ñandú5"));
    assert!(only_alphanumeric(""));
}

#[test]
fn only_alphanumeric_refuses_other_characters() {
    assert!(!only_alphanumeric("ab-c"));
    assert!(!only_alphanumeric("a b"));
    assert!(!only_alphanumeric("john_doe"));
}

#[test]
fn uppercase_first_letter_capitalises() {
    assert_eq!(uppercase_first_letter("john"), "John");
    assert_eq!(uppercase_first_letter("John"), "John");
    assert_eq!(uppercase_first_letter("1abc"), "1abc");
}

#[test]
fn uppercase_first_letter_of_empty_text_is_empty() {
    assert_eq!(uppercase_first_letter(""), "");
}

#[test]
fn uppercase_first_letter_can_grow_the_text() {
    assert_eq!(uppercase_first_letter("ßa"), "SSa");
}

#[test]
fn lowercased_follows_unicode_rules() {
    assert_eq!(lowercased("JohnDOE"), "johndoe");
    assert_eq!(lowercased("ΣΑΣ"), "σας");
}

#[test]
fn cut_to_limit_leaves_short_text() {
    assert_eq!(cut_to_limit("short"), None);
    let exactly = "a".repeat(FIELD_BYTE_LIMIT);
    assert_eq!(cut_to_limit(&exactly), None);
}

#[test]
fn cut_to_limit_keeps_first_bytes() {
    let long = "abcdefghij".repeat(4);
    assert_eq!(cut_to_limit(&long), Some(long[..32].to_string()));
    let wide = "é".repeat(20);
    assert_eq!(cut_to_limit(&wide), Some("é".repeat(16)));
}

#[test]
fn can_cut_to_limit_detects_split_characters() {
    assert!(can_cut_to_limit("short"));
    assert!(can_cut_to_limit(&"é".repeat(20)));
    let odd = format!("a{}", "é".repeat(20));
    assert!(!can_cut_to_limit(&odd));
}

#[test]
fn trim_end_matches_removes_every_repetition() {
    assert_eq!(trim_end_matches("en_US.json", ".json"), "en_US");
    assert_eq!(trim_end_matches("de.json.json", ".json"), "de");
    assert_eq!(trim_end_matches("fr.jsonx", ".json"), "fr.jsonx");
    assert_eq!(trim_end_matches("abc", ""), "abc");
}

#[test]
fn strip_suffix_removes_once() {
    assert_eq!(strip_suffix("en_US.UTF-8", ".UTF-8"), Some("en_US".to_string()));
    assert_eq!(strip_suffix("C", ".UTF-8"), None);
    assert_eq!(strip_suffix("x.UTF-8.UTF-8", ".UTF-8"), Some("x.UTF-8".to_string()));
}

#[test]
fn contains_finds_substrings() {
    assert!(contains("ubuntu:GNOME", "ubuntu"));
    assert!(!contains("ubuntu:GNOME", "gnome"));
    assert!(contains("gnome-classic", "gnome"));
    assert!(contains("anything", ""));
    assert!(!contains("ab", "abc"));
}

#[test]
fn same_text_compares_characters() {
    assert!(same_text("secret", "secret"));
    assert!(!same_text("secret", "Secret"));
}

#[test]
fn chars_round_trip() {
    let cs = chars_of("héllo");
    assert_eq!(cs, vec!['h', 'é', 'l', 'l', 'o']);
    assert_eq!(string_from_chars(&cs), "héllo");
}
