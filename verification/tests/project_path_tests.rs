use lang_tutor::project_path::{encode_project_path, get_agent_project_dir, project_dir_under};

#[test]
fn encodes_windows_paths() {
    assert_eq!(
        encode_project_path("C:\\Users\\foo\\lang\\data\\korean"),
        "C--Users-foo-lang-data-korean"
    );
}

#[test]
fn strips_long_path_prefix_before_encoding() {
    assert_eq!(
        encode_project_path("\\\\?\\C:\\Users\\x"),
        "C--Users-x"
    );
}

#[test]
fn encodes_unix_paths() {
    assert_eq!(
        encode_project_path("/home/user/lang/data/korean"),
        "-home-user-lang-data-korean"
    );
}

#[test]
fn mixed_separators_all_become_hyphens() {
    assert_eq!(encode_project_path("C:\\a/b\\c"), "C--a-b-c");
}

#[test]
fn project_dir_lives_under_home() {
    let p = get_agent_project_dir("/data/korean").unwrap();
    assert!(p.ends_with("/.agent/projects/-data-korean"));
}

#[test]
fn project_dir_under_home_is_exact() {
    assert_eq!(
        project_dir_under("/home/u", "/data/korean"),
        "/home/u/.agent/projects/-data-korean"
    );
    assert_eq!(
        project_dir_under("C:\\Users\\u", "C:\\lang\\data\\korean"),
        "C:\\Users\\u/.agent/projects/C--lang-data-korean"
    );
}
