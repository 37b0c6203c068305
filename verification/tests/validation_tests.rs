use lang_tutor::error::Error;
use lang_tutor::text::capitalize_first;
use lang_tutor::workspace::{get_data_dir, get_language_dir, validate_language_name};

#[test]
fn accepts_ordinary_identifiers() {
    assert!(validate_language_name("korean").is_ok());
    assert!(validate_language_name("Korean").is_ok());
    assert!(validate_language_name("Haitian Creole").is_ok());
    assert!(validate_language_name("Serbo-Croatian").is_ok());
    assert!(validate_language_name("N4").is_ok());
}

#[test]
fn rejects_empty_identifier() {
    assert_eq!(validate_language_name(""), Err(Error::EmptyName));
    assert_eq!(
        Error::EmptyName.message(),
        "Language name cannot be empty"
    );
}

#[test]
fn rejects_path_traversal_and_separators() {
    assert_eq!(validate_language_name("a..b"), Err(Error::PathChars));
    assert_eq!(validate_language_name(".."), Err(Error::PathChars));
    assert_eq!(validate_language_name("a/b"), Err(Error::PathChars));
    assert_eq!(validate_language_name("a\\b"), Err(Error::PathChars));
    assert_eq!(
        Error::PathChars.message(),
        "Language name contains invalid characters"
    );
}

#[test]
fn rejects_charset_violations() {
    assert_eq!(validate_language_name("french!"), Err(Error::BadCharset));
    assert_eq!(validate_language_name("a_b"), Err(Error::BadCharset));
    assert_eq!(validate_language_name("x.y"), Err(Error::BadCharset));
    assert_eq!(
        Error::BadCharset.message(),
        "Language name can only contain letters, numbers, spaces, and hyphens"
    );
}

#[test]
fn resolution_is_case_insensitive() {
    let a = get_language_dir("/root/app", "Korean").unwrap();
    let b = get_language_dir("/root/app", "korean").unwrap();
    let c = get_language_dir("/root/app", "KOREAN").unwrap();
    assert_eq!(a, "/root/app/data/korean");
    assert_eq!(a, b);
    assert_eq!(a, c);
}

#[test]
fn resolution_lowers_unicode_letters() {
    let upper = get_language_dir("/r", "Espa\u{d1}ol").unwrap();
    let lower = get_language_dir("/r", "espa\u{f1}ol").unwrap();
    assert_eq!(upper, "/r/data/espa\u{f1}ol");
    assert_eq!(upper, lower);
}

#[test]
fn invalid_identifier_resolves_to_error() {
    assert_eq!(
        get_language_dir("/root/app", "a/b"),
        Err(Error::PathChars)
    );
}

#[test]
fn data_dir_is_under_root() {
    assert_eq!(get_data_dir("/opt/app"), "/opt/app/data");
}

#[test]
fn capitalizes_first_character_only() {
    assert_eq!(capitalize_first("korean"), "Korean");
    assert_eq!(capitalize_first("haitian creole"), "Haitian creole");
    assert_eq!(capitalize_first(""), "");
    assert_eq!(capitalize_first("K"), "K");
    assert_eq!(capitalize_first("\u{e9}tude"), "\u{c9}tude");
    // A first character whose uppercase mapping is several characters.
    assert_eq!(capitalize_first("\u{df}en"), "SSen");
}

#[test]
fn remaining_error_kinds_have_messages() {
    assert_eq!(
        Error::ProcessSpawn(String::from("No such file or directory")).message(),
        "Failed to run agent: No such file or directory"
    );
    assert_eq!(Error::TrackerTimeout.message(), "Tracker timed out");
    assert_eq!(
        Error::Io(String::from("vocabulary.json")).message(),
        "File operation failed: vocabulary.json"
    );
}
