use pika_first_setup::translations::{
    locale_from_file_name, locale_from_lang, I18nBackend, TranslationError,
};
use pika_first_setup::welcome::issue_url;

fn files(v: &[(&str, &str)]) -> Vec<(String, String)> {
    v.iter().map(|(a, b)| (a.to_string(), b.to_string())).collect()
}

#[test]
fn translate_reads_back_loaded_values() {
    let b = I18nBackend::new(&files(&[
        ("en_US.json", r#"{"app_name": "First Setup", "next": "Next"}"#),
        ("de_DE.json", r#"{"next": "Weiter"}"#),
    ]))
    .unwrap();
    assert_eq!(b.translate("en_US", "app_name"), Some("First Setup"));
    assert_eq!(b.translate("de_DE", "next"), Some("Weiter"));
    assert_eq!(b.translate("de_DE", "app_name"), None);
    assert_eq!(b.translate("fr_FR", "next"), None);
}

#[test]
fn later_file_replaces_locale() {
    let b = I18nBackend::new(&files(&[
        ("en_US.json", r#"{"a": "1", "b": "2"}"#),
        ("en_US.json.json", r#"{"a": "3"}"#),
    ]))
    .unwrap();
    assert_eq!(b.translate("en_US", "a"), Some("3"));
    assert_eq!(b.translate("en_US", "b"), None);
    assert_eq!(b.available_locales(), vec!["en_US"]);
}

#[test]
fn available_locales_lists_each_once() {
    let b = I18nBackend::new(&files(&[
        ("en_US.json", "{}"),
        ("pt_BR.json", r#"{"x": "y"}"#),
    ]))
    .unwrap();
    assert_eq!(b.available_locales(), vec!["en_US", "pt_BR"]);
}

#[test]
fn invalid_json_is_refused() {
    let r = I18nBackend::new(&files(&[
        ("en_US.json", "{}"),
        ("broken.json", "{not json"),
        ("fr_FR.json", "{}"),
    ]));
    match r {
        Err(TranslationError::InvalidJson { locale }) => assert_eq!(locale, "broken"),
        Ok(_) => panic!("a broken file must stop the load"),
    }
    let r = I18nBackend::new(&files(&[("nums.json", r#"{"a": 1}"#)]));
    assert!(r.is_err());
}

#[test]
fn load_locale_file_keeps_tables_on_error() {
    let mut b = I18nBackend::empty();
    assert!(b.load_locale_file("en_US.json", r#"{"k": "v"}"#).is_ok());
    assert!(b.load_locale_file("en_US.json", "[]").is_err());
    assert_eq!(b.translate("en_US", "k"), Some("v"));
}

#[test]
fn empty_backend_has_nothing() {
    let b = I18nBackend::empty();
    assert!(b.available_locales().is_empty());
    assert_eq!(b.translate("en_US", "k"), None);
}

#[test]
fn locale_names() {
    assert_eq!(locale_from_file_name("en_US.json"), "en_US");
    assert_eq!(locale_from_file_name("README"), "README");
    assert_eq!(locale_from_lang("de_DE.UTF-8"), Some("de_DE".to_string()));
    assert_eq!(locale_from_lang("C"), None);
}

#[test]
fn issue_url_appends_issues() {
    assert_eq!(
        issue_url("https://github.com/PikaOS-Linux/pika-welcome"),
        "https://github.com/PikaOS-Linux/pika-welcome/issues"
    );
}
