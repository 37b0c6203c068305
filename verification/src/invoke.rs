//! The agent invocation layer: building the two external-process
//! invocations of one chat exchange — the blocking responder and the
//! detached, time-bounded tracker — and interpreting their outcomes.
//!
//! The library builds each invocation as a value and interprets the
//! captured results; spawning, waiting and the timeout are performed by
//! the surrounding application, which must never let a tracker outcome
//! reach the responder's reply path.

use vstd::prelude::*;

use crate::error::Error;
use crate::text::{replace, replace_seq};

verus! {

/// The external agent binary both invocations run.
pub const AGENT_BINARY: &'static str = "agent";

pub const ARG_SKIP_PERMISSIONS: &'static str = "--dangerously-skip-permissions";

pub const ARG_CONTINUE: &'static str = "--continue";

pub const ARG_PROMPT: &'static str = "-p";

/// The bounded wait of the detached tracker invocation, in seconds.
pub const TRACKER_TIMEOUT_SECS: u64 = 60;

/// The isolated working subdirectory of the tracker, so the agent's own
/// session tracking treats it as a conversation of its own.
pub const TRACKER_DIR_NAME: &'static str = ".tracker";

/// The fixed tracker instruction, with its one substitution point.
pub const TRACKER_PROMPT: &'static str = "[TRACKER TASK - UPDATE FILES ONLY, NO RESPONSE]\n\nProcess this learner message and update vocabulary.json and grammar.json.\n\nLearner said: {{MESSAGE}}\n\nInstructions:\n1. Read vocabulary.json and grammar.json\n2. For each word/particle the learner used:\n   - If NEW: add entry with ease=2.5, interval=1, repetitions=1\n   - If EXISTS: update SM-2 data (see below)\n3. For grammar patterns used:\n   - If NEW: add entry with stars=1, correct_streak=1\n   - If EXISTS: increment correct_streak, upgrade stars if appropriate\n4. Write updated files\n5. Output NOTHING - your only job is updating files\n\nSM-2 Algorithm (when learner uses a word correctly):\n- repetitions += 1\n- if repetitions == 1: interval = 1\n- if repetitions == 2: interval = 6\n- if repetitions >= 3: interval = round(interval \u{d7} ease)\n- next_review = today + interval days\n\nIMPORTANT: Check for duplicates by word/rule field. Update existing entries, don't create duplicates.";

/// One external-process invocation, as a value: what to run, with which
/// arguments, where, and under which completion contract.
pub struct AgentRequest {
    pub program: String,
    pub args: Vec<String>,
    pub working_dir: String,
    /// `None`: block until done. `Some(t)`: detached, abandoned after
    /// `t` seconds, outcome logged only.
    pub timeout_secs: Option<u64>,
}

pub open spec fn args_view(args: Seq<String>) -> Seq<Seq<char>> {
    Seq::new(args.len(), |i: int| args[i]@)
}

/// The responder's argument list: bypass permission prompts, continue the
/// most recent conversation, then the learner's raw message as the prompt.
pub open spec fn responder_args_spec(message: Seq<char>) -> Seq<Seq<char>> {
    seq!["--dangerously-skip-permissions"@, "--continue"@, "-p"@, message]
}

/// The tracker's prompt: the fixed instruction with the learner's message
/// substituted in.
pub open spec fn tracker_prompt_spec(message: Seq<char>) -> Seq<char> {
    replace_seq(TRACKER_PROMPT@, "{{MESSAGE}}"@, message)
}

/// The tracker's argument list: bypass permission prompts, then the
/// substituted instruction as the prompt.
pub open spec fn tracker_args_spec(message: Seq<char>) -> Seq<Seq<char>> {
    seq!["--dangerously-skip-permissions"@, "-p"@, tracker_prompt_spec(message)]
}

/// The tracker's working directory under one workspace.
pub open spec fn tracker_dir_spec(lang_dir: Seq<char>) -> Seq<char> {
    lang_dir + "/"@ + ".tracker"@
}

/// Builds the blocking responder invocation for one learner message.
pub fn responder_request(lang_dir: &str, message: &str) -> (r: AgentRequest)
    ensures
        r.program@ == AGENT_BINARY@,
        args_view(r.args@) == responder_args_spec(message@),
        r.working_dir@ == lang_dir@,
        r.timeout_secs is None,
{
    let mut args: Vec<String> = Vec::new();
    args.push(String::from_str(ARG_SKIP_PERMISSIONS));
    args.push(String::from_str(ARG_CONTINUE));
    args.push(String::from_str(ARG_PROMPT));
    args.push(String::from_str(message));
    proof {
        assert(args_view(args@) =~= responder_args_spec(message@));
    }
    AgentRequest {
        program: String::from_str(AGENT_BINARY),
        args,
        working_dir: String::from_str(lang_dir),
        timeout_secs: None,
    }
}

/// Builds the detached, time-bounded tracker invocation for one learner
/// message, isolated in the workspace's tracker subdirectory.
pub fn tracker_request(lang_dir: &str, message: &str) -> (r: AgentRequest)
    ensures
        r.program@ == AGENT_BINARY@,
        args_view(r.args@) == tracker_args_spec(message@),
        r.working_dir@ == tracker_dir_spec(lang_dir@),
        r.timeout_secs == Some(TRACKER_TIMEOUT_SECS),
{
    proof {
        reveal_strlit("{{MESSAGE}}");
    }
    let mut args: Vec<String> = Vec::new();
    args.push(String::from_str(ARG_SKIP_PERMISSIONS));
    args.push(String::from_str(ARG_PROMPT));
    args.push(replace(TRACKER_PROMPT, "{{MESSAGE}}", message));
    proof {
        assert(args_view(args@) =~= tracker_args_spec(message@));
    }
    AgentRequest {
        program: String::from_str(AGENT_BINARY),
        args,
        working_dir: String::from_str(lang_dir).concat("/").concat(TRACKER_DIR_NAME),
        timeout_secs: Some(TRACKER_TIMEOUT_SECS),
    }
}

/// A character with the Unicode `White_Space` property — the set
/// `str::trim` strips, written out as its fixed list of code points.
pub open spec fn is_space(c: char) -> bool {
    ('\u{9}' <= c && c <= '\u{d}') || c == ' ' || c == '\u{85}' || c == '\u{a0}'
        || c == '\u{1680}' || ('\u{2000}' <= c && c <= '\u{200a}') || c == '\u{2028}'
        || c == '\u{2029}' || c == '\u{202f}' || c == '\u{205f}' || c == '\u{3000}'
}

pub open spec fn trim_start_spec(s: Seq<char>) -> Seq<char>
    decreases s.len(),
{
    if s.len() > 0 && is_space(s[0]) {
        trim_start_spec(s.skip(1))
    } else {
        s
    }
}

pub open spec fn trim_end_spec(s: Seq<char>) -> Seq<char>
    decreases s.len(),
{
    if s.len() > 0 && is_space(s[s.len() - 1]) {
        trim_end_spec(s.take(s.len() - 1))
    } else {
        s
    }
}

/// The string with Unicode whitespace stripped from both ends.
pub open spec fn trim_spec(s: Seq<char>) -> Seq<char> {
    trim_end_spec(trim_start_spec(s))
}

proof fn lemma_trim_start_at(s: Seq<char>, a: int)
    requires
        0 <= a <= s.len(),
        forall|j: int| 0 <= j < a ==> is_space(#[trigger] s[j]),
        a < s.len() ==> !is_space(s[a]),
    ensures
        trim_start_spec(s) == s.skip(a),
    decreases a,
{
    if a == 0 {
        assert(s.skip(0) =~= s);
    } else {
        assert(is_space(s[0]));
        lemma_trim_start_at(s.skip(1), a - 1);
        assert(s.skip(1).skip(a - 1) =~= s.skip(a));
    }
}

proof fn lemma_trim_end_at(s: Seq<char>, b: int)
    requires
        0 <= b <= s.len(),
        forall|j: int| b <= j < s.len() ==> is_space(#[trigger] s[j]),
        b > 0 ==> !is_space(s[b - 1]),
    ensures
        trim_end_spec(s) == s.take(b),
    decreases s.len() - b,
{
    if b == s.len() {
        if s.len() > 0 && is_space(s[s.len() - 1]) {
            assert(!is_space(s[b - 1]));
        }
        assert(s.take(b) =~= s);
    } else {
        assert(is_space(s[s.len() - 1]));
        lemma_trim_end_at(s.take(s.len() - 1), b);
        assert(s.take(s.len() - 1).take(b) =~= s.take(b));
    }
}

fn is_space_exec(c: char) -> (r: bool)
    ensures
        r == is_space(c),
{
    ('\u{9}' <= c && c <= '\u{d}') || c == ' ' || c == '\u{85}' || c == '\u{a0}'
        || c == '\u{1680}' || ('\u{2000}' <= c && c <= '\u{200a}') || c == '\u{2028}'
        || c == '\u{2029}' || c == '\u{202f}' || c == '\u{205f}' || c == '\u{3000}'
}

/// Strips Unicode whitespace from both ends of a captured output stream.
pub fn trim(s: &str) -> (r: String)
    ensures
        r@ == trim_spec(s@),
{
    let n = s.unicode_len();
    let mut a: usize = 0;
    while a < n && is_space_exec(s.get_char(a))
        invariant
            n == s@.len(),
            a <= n,
            forall|j: int| 0 <= j < a ==> is_space(#[trigger] s@[j]),
        decreases n - a,
    {
        a = a + 1;
    }
    let mut b: usize = n;
    while b > a && is_space_exec(s.get_char(b - 1))
        invariant
            n == s@.len(),
            a <= b <= n,
            forall|j: int| b <= j < n ==> is_space(#[trigger] s@[j]),
        decreases b,
    {
        b = b - 1;
    }
    proof {
        lemma_trim_start_at(s@, a as int);
        let t = s@.skip(a as int);
        assert forall|j: int| b - a <= j < t.len() implies is_space(#[trigger] t[j]) by {
            assert(t[j] == s@[j + a]);
        }
        if b > a {
            assert(t[b - a - 1] == s@[b - 1]);
        }
        lemma_trim_end_at(t, b - a);
        assert(trim_spec(s@) == t.take(b - a));
        assert(s@.subrange(a as int, b as int) =~= t.take(b - a));
    }
    let piece = s.substring_char(a, b);
    String::from_str(piece)
}

/// Interprets the responder's completed invocation: exit success yields
/// the trimmed standard output; a non-zero exit yields a process failure
/// carrying the trimmed error stream. No other outcome is possible.
pub fn responder_outcome(exit_success: bool, stdout: &str, stderr: &str) -> (r: Result<
    String,
    Error,
>)
    ensures
        exit_success ==> (r matches Ok(o) && o@ == trim_spec(stdout@)),
        !exit_success ==> (r matches Err(e) && e matches Error::ProcessFailure(t) && t@
            == trim_spec(stderr@)),
{
    if exit_success {
        Ok(trim(stdout))
    } else {
        Err(Error::ProcessFailure(trim(stderr)))
    }
}

/// Every way a detached tracker invocation can end. All of them are
/// terminal for that invocation and logged only.
#[derive(Debug, PartialEq, Eq)]
pub enum TrackerOutcome {
    /// The agent ran to completion within the bounded wait (its exit
    /// status is deliberately not consumed).
    Completed,
    /// The bounded wait expired; the process is abandoned.
    TimedOut,
    /// The spawned task could not be joined; carries the description.
    JoinError(String),
    /// The process could not be launched; carries the description.
    SpawnError(String),
}

pub open spec fn tracker_log_spec(outcome: TrackerOutcome) -> Option<Seq<char>> {
    match outcome {
        TrackerOutcome::Completed => None,
        TrackerOutcome::TimedOut => Some("[Tracker] Timed out after 60s"@),
        TrackerOutcome::JoinError(e) => Some("[Tracker] Task join error: "@ + e@),
        TrackerOutcome::SpawnError(e) => Some("[Tracker] Command error: "@ + e@),
    }
}

/// The log line a tracker outcome produces: nothing on completion, a
/// diagnostic otherwise. This is the only consumption of a tracker
/// outcome anywhere in the library.
pub fn tracker_log_message(outcome: &TrackerOutcome) -> (r: Option<String>)
    ensures
        match r {
            Some(s) => tracker_log_spec(*outcome) == Some(s@),
            None => tracker_log_spec(*outcome) is None,
        },
{
    match outcome {
        TrackerOutcome::Completed => None,
        TrackerOutcome::TimedOut => Some(String::from_str("[Tracker] Timed out after 60s")),
        TrackerOutcome::JoinError(e) => {
            let r = String::from_str("[Tracker] Task join error: ").concat(e.as_str());
            proof {
                assert(r@ =~= "[Tracker] Task join error: "@ + e@);
            }
            Some(r)
        },
        TrackerOutcome::SpawnError(e) => {
            let r = String::from_str("[Tracker] Command error: ").concat(e.as_str());
            proof {
                assert(r@ =~= "[Tracker] Command error: "@ + e@);
            }
            Some(r)
        },
    }
}

} // verus!
