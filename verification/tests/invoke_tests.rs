use lang_tutor::commands::{
    get_grammar_path, get_vocabulary_path, list_languages, require_bootstrapped,
    send_message_requests,
};
use lang_tutor::error::Error;
use lang_tutor::invoke::{
    responder_outcome, responder_request, tracker_log_message, tracker_request, trim,
    TrackerOutcome,
};

#[test]
fn responder_invocation_shape() {
    let r = responder_request("/data/korean", "안녕하세요");
    assert_eq!(r.program, "agent");
    assert_eq!(
        r.args,
        vec!["--dangerously-skip-permissions", "--continue", "-p", "안녕하세요"]
    );
    assert_eq!(r.working_dir, "/data/korean");
    assert_eq!(r.timeout_secs, None);
}

#[test]
fn tracker_invocation_shape() {
    let r = tracker_request("/data/korean", "Hola mundo");
    assert_eq!(r.program, "agent");
    assert_eq!(r.args.len(), 3);
    assert_eq!(r.args[0], "--dangerously-skip-permissions");
    assert_eq!(r.args[1], "-p");
    assert!(r.args[2].contains("Learner said: Hola mundo"));
    assert!(!r.args[2].contains("{{MESSAGE}}"));
    assert!(r.args[2].contains("SM-2 Algorithm"));
    assert_eq!(r.working_dir, "/data/korean/.tracker");
    assert_eq!(r.timeout_secs, Some(60));
}

#[test]
fn trim_strips_both_ends() {
    assert_eq!(trim("  hola  \n"), "hola");
    assert_eq!(trim("\t\r\nx y\n\n"), "x y");
    assert_eq!(trim(""), "");
    assert_eq!(trim(" \t\n"), "");
    assert_eq!(trim("inner  spaces kept"), "inner  spaces kept");
    // Unicode whitespace is stripped too, as str::trim strips it.
    assert_eq!(trim("\u{a0}hola\u{3000}"), "hola");
    assert_eq!(trim("\u{b}x\u{2028}"), "x");
}

#[test]
fn responder_success_yields_trimmed_output() {
    assert_eq!(responder_outcome(true, "  bonjour!\n", ""), Ok(String::from("bonjour!")));
}

#[test]
fn responder_failure_carries_trimmed_error_stream() {
    let r = responder_outcome(false, "", "command not found\n");
    assert_eq!(r, Err(Error::ProcessFailure(String::from("command not found"))));
    assert_eq!(r.unwrap_err().message(), "Agent error: command not found");
}

#[test]
fn tracker_failures_never_alter_a_successful_reply() {
    let outcomes = [
        TrackerOutcome::Completed,
        TrackerOutcome::TimedOut,
        TrackerOutcome::JoinError(String::from("cancelled")),
        TrackerOutcome::SpawnError(String::from("No such file or directory")),
    ];
    let mut replies = Vec::new();
    for t in &outcomes {
        // The tracker outcome is only ever turned into a log line; the
        // responder's result is computed without it.
        let _log = tracker_log_message(t);
        replies.push(responder_outcome(true, "same reply\n", ""));
    }
    for r in &replies {
        assert_eq!(*r, Ok(String::from("same reply")));
    }
}

#[test]
fn tracker_outcomes_log_and_only_log() {
    assert_eq!(tracker_log_message(&TrackerOutcome::Completed), None);
    assert_eq!(
        tracker_log_message(&TrackerOutcome::TimedOut),
        Some(String::from("[Tracker] Timed out after 60s"))
    );
    assert_eq!(
        tracker_log_message(&TrackerOutcome::JoinError(String::from("x"))),
        Some(String::from("[Tracker] Task join error: x"))
    );
    assert_eq!(
        tracker_log_message(&TrackerOutcome::SpawnError(String::from("y"))),
        Some(String::from("[Tracker] Command error: y"))
    );
}

#[test]
fn send_message_requires_bootstrap() {
    let r = send_message_requests("/root", "Korean", false, "hi");
    let e = r.err().unwrap();
    assert_eq!(e, Error::NotBootstrapped(String::from("Korean")));
    assert_eq!(
        e.message(),
        "Language 'Korean' not set up. Please bootstrap it first."
    );
    assert_eq!(require_bootstrapped("Korean", false).err(), Some(e));
    assert!(require_bootstrapped("Korean", true).is_ok());
}

#[test]
fn send_message_builds_both_requests() {
    let (tracker, responder) = send_message_requests("/root", "Korean", true, "hi").unwrap();
    assert_eq!(tracker.working_dir, "/root/data/korean/.tracker");
    assert_eq!(tracker.timeout_secs, Some(60));
    assert_eq!(responder.working_dir, "/root/data/korean");
    assert_eq!(responder.timeout_secs, None);
    assert_eq!(responder.args.last().unwrap(), "hi");
}

#[test]
fn listing_is_total_and_capitalized() {
    assert_eq!(list_languages(&Vec::new()), Vec::<String>::new());
    let names = vec![String::from("korean"), String::from("spanish")];
    assert_eq!(list_languages(&names), vec!["Korean", "Spanish"]);
}

#[test]
fn store_paths_live_in_the_workspace() {
    assert_eq!(
        get_vocabulary_path("/r", "Korean"),
        Ok(String::from("/r/data/korean/vocabulary.json"))
    );
    assert_eq!(
        get_grammar_path("/r", "Korean"),
        Ok(String::from("/r/data/korean/grammar.json"))
    );
    assert_eq!(get_vocabulary_path("/r", ""), Err(Error::EmptyName));
}
