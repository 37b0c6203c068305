use lang_tutor::artifacts::{format_date, generate_language_files};
use lang_tutor::commands::{bootstrap_language, bootstrap_message, delete_language};
use lang_tutor::error::Error;
use lang_tutor::lang_info::get_language_info;

#[test]
fn date_formatting_pads_fields() {
    assert_eq!(format_date(2026, 3, 7), "2026-03-07");
    assert_eq!(format_date(2026, 12, 31), "2026-12-31");
    assert_eq!(format_date(986, 1, 1), "0986-01-01");
    assert_eq!(format_date(0, 10, 5), "0000-10-05");
    assert_eq!(format_date(12345, 6, 6), "12345-06-06");
    assert_eq!(format_date(-1, 2, 3), "-0001-02-03");
}

#[test]
fn vocabulary_skeleton_is_exact() {
    let a = generate_language_files("Korean", 2026, 3, 7);
    assert_eq!(a.vocabulary, "{\n  \"language\": \"Korean\",\n  \"words\": []\n}");
    assert_eq!(a.grammar, "{\n  \"language\": \"Korean\",\n  \"rules\": []\n}");
}

#[test]
fn overrides_keep_defaults_and_language() {
    let a = generate_language_files("Spanish", 2026, 3, 7);
    assert!(a.overrides.contains("\"language\": \"Spanish\""));
    assert!(a.overrides.contains("\"mode\": \"learning\""));
    assert!(a.overrides.contains("\"new_vocab_per_exchange\": 2"));
    assert!(a.overrides.contains("\"show_romanization\": true"));
}

#[test]
fn config_record_is_exact_pretty_json() {
    let a = generate_language_files("Korean", 2026, 3, 7);
    assert_eq!(
        a.config,
        "{\n  \"language\": \"Korean\",\n  \"native_script\": \"한글\",\n  \"romanization\": \"none\",\n  \"started\": \"2026-03-07\"\n}"
    );
}

#[test]
fn instructions_substitute_every_placeholder() {
    let a = generate_language_files("Japanese", 2026, 3, 7);
    assert!(a.instructions.contains("Japanese"));
    assert!(a.instructions.contains("日本語"));
    assert!(a.instructions.contains("romaji"));
    assert!(a.instructions.contains("Japanese-Specific Considerations"));
    assert!(!a.instructions.contains("{{"));
}

#[test]
fn unrecognized_language_gets_the_fallback_record() {
    let info = get_language_info("Quenya");
    assert_eq!(info.native_script, "Native Script");
    assert_eq!(info.romanization, "none");
    assert!(info.notes.contains("Language-Specific Considerations"));
}

#[test]
fn language_lookup_is_case_insensitive() {
    assert_eq!(get_language_info("MANDARIN").native_script, "汉字");
    assert_eq!(get_language_info("Chinese").romanization, "pinyin");
    assert_eq!(get_language_info("gErMaN").native_script, "Deutsch");
    // The Kelvin sign lowers (by the Unicode mapping) to a plain k.
    assert_eq!(get_language_info("\u{212a}orean").native_script, "한글");
}

#[test]
fn bootstrap_rejects_existing_workspace() {
    // A workspace that exists already: the second bootstrap must fail.
    let r = bootstrap_language("Korean", true);
    assert_eq!(r.err(), Some(Error::AlreadyExists(String::from("Korean"))));
    assert_eq!(
        Error::AlreadyExists(String::from("Korean")).message(),
        "Language 'Korean' already exists"
    );
}

#[test]
fn bootstrap_rejects_invalid_identifier() {
    assert_eq!(bootstrap_language("../etc", false).err(), Some(Error::PathChars));
}

#[test]
fn bootstrap_produces_dated_config() {
    let a = bootstrap_language("Korean", false).unwrap();
    assert!(a.config.contains("\"language\": \"Korean\""));
    let started = a
        .config
        .lines()
        .find(|l| l.contains("\"started\""))
        .unwrap()
        .to_string();
    // "started": "YYYY-MM-DD"
    let date = started.split('"').nth(3).unwrap();
    assert_eq!(date.len(), 10);
    let bytes = date.as_bytes();
    assert_eq!(bytes[4], b'-');
    assert_eq!(bytes[7], b'-');
    for i in [0, 1, 2, 3, 5, 6, 8, 9] {
        assert!(bytes[i].is_ascii_digit());
    }
    assert_eq!(bootstrap_message("Korean"), "Successfully bootstrapped Korean");
}

#[test]
fn delete_requires_existing_workspace() {
    assert_eq!(
        delete_language("Korean", false).err(),
        Some(Error::NotFound(String::from("Korean")))
    );
    assert_eq!(delete_language("Korean", true), Ok(String::from("Deleted Korean")));
    assert_eq!(delete_language("a/b", true).err(), Some(Error::PathChars));
}
