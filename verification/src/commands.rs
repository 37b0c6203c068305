//! The exposed operation surface: every decision the commands make,
//! as verified functions over the values the application's side effects
//! produce and consume. The application supplies the configured root
//! path and each workspace's existence bit, and performs the filesystem
//! and process work the results call for.

use vstd::prelude::*;

use crate::artifacts::{current_date, date_spec, generate_language_files, LangArtifacts};
use crate::error::Error;
use crate::invoke::{
    args_view, responder_args_spec, responder_request, tracker_args_spec, tracker_dir_spec,
    tracker_request, trim_spec, AgentRequest, TrackerOutcome, AGENT_BINARY,
    TRACKER_TIMEOUT_SECS,
};
use crate::text::{capitalize_first, capitalize_seq};
use crate::workspace::{
    get_language_dir, language_dir_spec, validate_language_name, validate_spec, valid_language,
};

verus! {

/// Bootstraps a language: rejected identifiers and existing workspaces
/// fail; otherwise the five artifact files are derived for today's date,
/// for the application to write under the resolved directory.
pub fn bootstrap_language(language: &str, exists: bool) -> (r: Result<LangArtifacts, Error>)
    ensures
        r is Ok <==> (valid_language(language@) && !exists),
        !valid_language(language@) ==> (r matches Err(e) && Err::<(), Error>(e) == validate_spec(
            language@,
        )),
        (valid_language(language@) && exists) ==> (r matches Err(e) && e matches
            Error::AlreadyExists(l) && l@ == language@),
        r matches Ok(a) ==> exists|y: int, mo: int, dd: int|
            {
                &&& -262143 <= y <= 262142
                &&& 1 <= mo <= 12
                &&& 1 <= dd <= 31
                &&& a.wf(language@, date_spec(y, mo, dd))
            },
{
    match validate_language_name(language) {
        Err(e) => Err(e),
        Ok(()) => {
            if exists {
                Err(Error::AlreadyExists(String::from_str(language)))
            } else {
                let (y, mo, dd) = current_date();
                let a = generate_language_files(language, y, mo, dd);
                proof {
                    assert(a.wf(language@, date_spec(y as int, mo as int, dd as int)));
                }
                Ok(a)
            }
        },
    }
}

/// The success message a completed bootstrap reports.
pub fn bootstrap_message(language: &str) -> (r: String)
    ensures
        r@ == "Successfully bootstrapped "@ + language@,
{
    let r = String::from_str("Successfully bootstrapped ").concat(language);
    proof {
        assert(r@ =~= "Successfully bootstrapped "@ + language@);
    }
    r
}

/// Deletes a language: rejected identifiers and absent workspaces fail;
/// otherwise the application removes the entire workspace subtree and
/// reports the returned message. Destructive and irreversible — callers
/// confirm with the user first.
pub fn delete_language(language: &str, exists: bool) -> (r: Result<String, Error>)
    ensures
        r is Ok <==> (valid_language(language@) && exists),
        !valid_language(language@) ==> (r matches Err(e) && Err::<(), Error>(e) == validate_spec(
            language@,
        )),
        (valid_language(language@) && !exists) ==> (r matches Err(e) && e matches Error::NotFound(
            l,
        ) && l@ == language@),
        r matches Ok(msg) ==> msg@ == "Deleted "@ + language@,
{
    match validate_language_name(language) {
        Err(e) => Err(e),
        Ok(()) => {
            if !exists {
                Err(Error::NotFound(String::from_str(language)))
            } else {
                let msg = String::from_str("Deleted ").concat(language);
                proof {
                    assert(msg@ =~= "Deleted "@ + language@);
                }
                Ok(msg)
            }
        },
    }
}

/// The display names of the stored workspace directories: each lowered
/// name with its first character upper-cased, in the order given. Total:
/// an empty listing yields an empty list, never an error.
pub fn list_languages(dir_names: &Vec<String>) -> (r: Vec<String>)
    ensures
        r@.len() == dir_names@.len(),
        forall|i: int| 0 <= i < r@.len() ==> r@[i]@ == capitalize_seq(#[trigger] dir_names@[i]@),
{
    let n = dir_names.len();
    let mut out: Vec<String> = Vec::new();
    let mut i: usize = 0;
    while i < n
        invariant
            n == dir_names@.len(),
            i <= n,
            out@.len() == i,
            forall|j: int| 0 <= j < i ==> out@[j]@ == capitalize_seq(#[trigger] dir_names@[j]@),
        decreases n - i,
    {
        let name = capitalize_first(dir_names[i].as_str());
        out.push(name);
        i = i + 1;
    }
    out
}

/// The vocabulary store of one workspace.
pub fn get_vocabulary_path(root: &str, language: &str) -> (r: Result<String, Error>)
    ensures
        r is Ok <==> valid_language(language@),
        r matches Err(e) ==> Err::<(), Error>(e) == validate_spec(language@),
        r matches Ok(p) ==> p@ == language_dir_spec(root@, language@) + "/"@
            + "vocabulary.json"@,
{
    match get_language_dir(root, language) {
        Err(e) => Err(e),
        Ok(dir) => Ok(dir.concat("/").concat("vocabulary.json")),
    }
}

/// The grammar store of one workspace.
pub fn get_grammar_path(root: &str, language: &str) -> (r: Result<String, Error>)
    ensures
        r is Ok <==> valid_language(language@),
        r matches Err(e) ==> Err::<(), Error>(e) == validate_spec(language@),
        r matches Ok(p) ==> p@ == language_dir_spec(root@, language@) + "/"@ + "grammar.json"@,
{
    match get_language_dir(root, language) {
        Err(e) => Err(e),
        Ok(dir) => Ok(dir.concat("/").concat("grammar.json")),
    }
}

/// The guard every chat operation runs first: the workspace must be
/// bootstrapped already.
pub fn require_bootstrapped(language: &str, exists: bool) -> (r: Result<(), Error>)
    ensures
        r is Ok <==> (valid_language(language@) && exists),
        !valid_language(language@) ==> r == validate_spec(language@),
        (valid_language(language@) && !exists) ==> (r matches Err(e) && e matches
            Error::NotBootstrapped(l) && l@ == language@),
{
    match validate_language_name(language) {
        Err(e) => Err(e),
        Ok(()) => {
            if !exists {
                Err(Error::NotBootstrapped(String::from_str(language)))
            } else {
                Ok(())
            }
        },
    }
}

/// One sendMessage call's two invocations: the detached tracker and the
/// blocking responder, both rooted in the resolved workspace. The
/// tracker is dispatched first, but the reply never waits on it.
pub fn send_message_requests(root: &str, language: &str, exists: bool, message: &str) -> (r:
    Result<(AgentRequest, AgentRequest), Error>)
    ensures
        r is Ok <==> (valid_language(language@) && exists),
        !valid_language(language@) ==> (r matches Err(e) && Err::<(), Error>(e) == validate_spec(
            language@,
        )),
        (valid_language(language@) && !exists) ==> (r matches Err(e) && e matches
            Error::NotBootstrapped(l) && l@ == language@),
        r matches Ok(p) ==> {
            &&& p.0.program@ == AGENT_BINARY@
            &&& args_view(p.0.args@) == tracker_args_spec(message@)
            &&& p.0.working_dir@ == tracker_dir_spec(language_dir_spec(root@, language@))
            &&& p.0.timeout_secs == Some(TRACKER_TIMEOUT_SECS as u64)
            &&& p.1.program@ == AGENT_BINARY@
            &&& args_view(p.1.args@) == responder_args_spec(message@)
            &&& p.1.working_dir@ == language_dir_spec(root@, language@)
            &&& p.1.timeout_secs is None
        },
{
    match get_language_dir(root, language) {
        Err(e) => Err(e),
        Ok(dir) => {
            if !exists {
                Err(Error::NotBootstrapped(String::from_str(language)))
            } else {
                let tracker = tracker_request(dir.as_str(), message);
                let responder = responder_request(dir.as_str(), message);
                Ok((tracker, responder))
            }
        },
    }
}

/// The user-visible outcome of one sendMessage call, over everything
/// that could influence it — including, for the statement's sake, the
/// tracker's outcome, which the definition never reads.
pub enum SessionReply {
    /// The trimmed responder output.
    Reply(Seq<char>),
    /// The identifier was rejected.
    Invalid,
    /// The workspace was never bootstrapped.
    NotBootstrapped,
    /// The responder exited non-zero; the trimmed error stream.
    Failed(Seq<char>),
}

pub open spec fn session_result_spec(
    lang: Seq<char>,
    exists: bool,
    responder_success: bool,
    stdout: Seq<char>,
    stderr: Seq<char>,
    tracker: TrackerOutcome,
) -> SessionReply {
    if !valid_language(lang) {
        SessionReply::Invalid
    } else if !exists {
        SessionReply::NotBootstrapped
    } else if responder_success {
        SessionReply::Reply(trim_spec(stdout))
    } else {
        SessionReply::Failed(trim_spec(stderr))
    }
}

/// Tracker isolation: whatever becomes of the tracker invocation —
/// timeout, spawn failure, non-zero exit or completion — the reply of a
/// concurrently-running sendMessage call is unchanged.
pub proof fn lemma_tracker_isolated(
    lang: Seq<char>,
    exists: bool,
    responder_success: bool,
    stdout: Seq<char>,
    stderr: Seq<char>,
    t1: TrackerOutcome,
    t2: TrackerOutcome,
)
    ensures
        session_result_spec(lang, exists, responder_success, stdout, stderr, t1)
            == session_result_spec(lang, exists, responder_success, stdout, stderr, t2),
{
}

} // verus!
