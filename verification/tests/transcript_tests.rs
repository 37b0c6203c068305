use lang_tutor::transcript::{find_latest_jsonl, parse_chat_messages};

fn lines(raw: &[&str]) -> Vec<String> {
    raw.iter().map(|s| s.to_string()).collect()
}

#[test]
fn recovers_user_and_assistant_turns_in_order() {
    let log = lines(&[
        r#"{"type":"user","message":{"role":"user","content":"Hola profesor"}}"#,
        r#"{"type":"assistant","message":{"role":"assistant","content":[{"type":"text","text":"Hola! Como estas?"}]}}"#,
        r#"{"type":"user","message":{"role":"user","content":[{"type":"tool_result","content":"ignored"}]}}"#,
        r#"this line is not valid json {"#,
    ]);
    let turns = parse_chat_messages(&log);
    assert_eq!(turns.len(), 2);
    assert_eq!(turns[0].role, "user");
    assert_eq!(turns[0].content, "Hola profesor");
    assert_eq!(turns[1].role, "assistant");
    assert_eq!(turns[1].content, "Hola! Como estas?");
}

#[test]
fn role_mismatch_contributes_nothing() {
    let log = lines(&[
        r#"{"type":"user","message":{"role":"assistant","content":"x"}}"#,
        r#"{"type":"assistant","message":{"role":"user","content":[{"type":"text","text":"y"}]}}"#,
        r#"{"type":"summary","summary":"irrelevant"}"#,
    ]);
    assert_eq!(parse_chat_messages(&log).len(), 0);
}

#[test]
fn structured_user_content_is_not_learner_speech() {
    let log = lines(&[
        r#"{"type":"user","message":{"role":"user","content":[{"type":"text","text":"not taken"}]}}"#,
    ]);
    assert_eq!(parse_chat_messages(&log).len(), 0);
}

#[test]
fn assistant_takes_first_text_item_only() {
    let log = lines(&[
        r#"{"type":"assistant","message":{"role":"assistant","content":[{"type":"tool_use","name":"x","type2":1},{"type":"text","text":"first"},{"type":"text","text":"second"}]}}"#,
    ]);
    let turns = parse_chat_messages(&log);
    assert_eq!(turns.len(), 1);
    assert_eq!(turns[0].content, "first");
}

#[test]
fn assistant_string_content_contributes_nothing() {
    let log = lines(&[
        r#"{"type":"assistant","message":{"role":"assistant","content":"plain"}}"#,
    ]);
    assert_eq!(parse_chat_messages(&log).len(), 0);
}

#[test]
fn empty_log_gives_empty_transcript() {
    assert_eq!(parse_chat_messages(&Vec::new()).len(), 0);
}

fn entries(raw: &[(&str, u64)]) -> Vec<(String, u64)> {
    raw.iter().map(|(n, t)| (n.to_string(), *t)).collect()
}

#[test]
fn selects_most_recent_log_file() {
    let es = entries(&[("a.jsonl", 5), ("notes.txt", 99), ("b.jsonl", 7), ("c.jsonl", 6)]);
    assert_eq!(find_latest_jsonl(&es), Some(2));
}

#[test]
fn ties_keep_the_first_listed_file() {
    let es = entries(&[("a.jsonl", 7), ("b.jsonl", 7)]);
    assert_eq!(find_latest_jsonl(&es), Some(0));
}

#[test]
fn no_log_files_selects_nothing() {
    assert_eq!(find_latest_jsonl(&Vec::new()), None);
    let es = entries(&[("readme.md", 10), (".jsonl", 20), ("x.json", 30)]);
    assert_eq!(find_latest_jsonl(&es), None);
}
