use pika_first_setup::user_form::{
    check_username, user_creation_command, username_edits, FormMessage, UserForm, UsernameCheck,
    SUDO_HELPER, USER_CREATE_PROG,
};

#[test]
fn check_username_refuses_reserved_names() {
    assert_eq!(check_username("root"), UsernameCheck::IsRoot);
    assert_eq!(check_username("pikaos"), UsernameCheck::IsPikaos);
}

#[test]
fn check_username_refuses_special_characters() {
    assert_eq!(check_username("john doe"), UsernameCheck::HasSpecial);
    assert_eq!(check_username("root!"), UsernameCheck::HasSpecial);
}

#[test]
fn check_username_accepts_plain_names() {
    assert_eq!(check_username("john"), UsernameCheck::Accepted);
    assert_eq!(check_username("rooter"), UsernameCheck::Accepted);
    assert_eq!(check_username(""), UsernameCheck::Accepted);
}

#[test]
fn username_edits_for_plain_name() {
    let e = username_edits("john");
    assert_eq!(e.full_name, "John");
    assert_eq!(e.cut, None);
    assert_eq!(e.lowered, None);
}

#[test]
fn username_edits_lower_capitals() {
    let e = username_edits("JohnDoe");
    assert_eq!(e.full_name, "JohnDoe");
    assert_eq!(e.lowered, Some("johndoe".to_string()));
}

#[test]
fn username_edits_cut_long_names() {
    let long = "a".repeat(40);
    let e = username_edits(&long);
    assert_eq!(e.cut, Some("a".repeat(32)));
    assert_eq!(e.full_name, format!("A{}", "a".repeat(39)));
}

#[test]
fn new_form_is_closed() {
    let f = UserForm::new();
    assert!(!f.next_enabled());
    assert!(!f.error_visible);
    assert_eq!(f.error_message, None);
    assert!(!f.password_verify_revealed);
}

#[test]
fn record_username_shows_problem() {
    let mut f = UserForm::new();
    f.record_username("root", false);
    assert!(f.error_visible);
    assert_eq!(f.error_message, Some(FormMessage::UsernameIsRoot));
    assert!(!f.username_valid);
    f.record_username("pikaos", false);
    assert_eq!(f.error_message, Some(FormMessage::UsernameIsPikaos));
    f.record_username("a.b", false);
    assert_eq!(f.error_message, Some(FormMessage::UsernameHasSpecial));
    assert!(!f.username_valid);
}

#[test]
fn record_username_accepts_and_hides_label() {
    let mut f = UserForm::new();
    f.record_username("root", false);
    f.record_username("john", false);
    assert!(f.username_valid);
    assert!(!f.error_visible);
    assert_eq!(f.error_message, Some(FormMessage::UsernameIsRoot));
}

#[test]
fn record_username_empty_keeps_flag() {
    let mut f = UserForm::new();
    f.record_username("", true);
    assert!(!f.username_valid);
    f.record_username("john", false);
    f.record_username("", true);
    assert!(f.username_valid);
}

#[test]
fn record_full_name_follows_emptiness() {
    let mut f = UserForm::new();
    f.record_full_name(false);
    assert!(f.full_name_valid);
    f.record_full_name(true);
    assert!(!f.full_name_valid);
}

#[test]
fn record_hostname_checks_characters() {
    let mut f = UserForm::new();
    f.record_hostname("my-pc", false);
    assert!(f.error_visible);
    assert_eq!(f.error_message, Some(FormMessage::HostnameHasSpecial));
    assert!(!f.hostname_valid);
    f.record_hostname("mypc.home", false);
    assert!(!f.error_visible);
    assert!(f.hostname_valid);
}

#[test]
fn record_password_reveals_and_compares() {
    let mut f = UserForm::new();
    f.record_password("secret", "");
    assert!(f.password_verify_revealed);
    assert!(!f.passwords_valid);
    f.record_password_verify("secret", "secre");
    assert!(f.error_visible);
    assert_eq!(f.error_message, Some(FormMessage::PasswordMismatch));
    assert!(!f.passwords_valid);
    f.record_password_verify("secret", "secret");
    assert!(!f.error_visible);
    assert!(f.passwords_valid);
    f.record_password("", "secret");
    assert!(!f.password_verify_revealed);
    assert!(!f.passwords_valid);
}

#[test]
fn next_enabled_only_when_all_fields_accepted() {
    let mut f = UserForm::new();
    f.record_username("john", false);
    f.record_full_name(false);
    f.record_hostname("pc", false);
    assert!(!f.next_enabled());
    f.record_password("pw", "pw");
    assert!(f.next_enabled());
    f.record_hostname("p c", false);
    assert!(!f.next_enabled());
}

#[test]
fn user_creation_command_orders_arguments() {
    let c = user_creation_command("john", "pw", "John", "pc");
    assert_eq!(
        c,
        vec![
            SUDO_HELPER.to_string(),
            "bash".to_string(),
            "-c".to_string(),
            USER_CREATE_PROG.to_string(),
            "john".to_string(),
            "pw".to_string(),
            "John".to_string(),
            "pc".to_string(),
        ]
    );
}
