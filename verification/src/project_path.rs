//! Deriving the external agent's own project-log directory from a
//! workspace's canonical absolute path: strip the platform long-path
//! prefix, turn the volume-root separator into a double hyphen, every
//! remaining separator into a single hyphen, and place the result under
//! the fixed home-relative project-log root.

use vstd::prelude::*;

use crate::error::Error;
use crate::text::{matches_at, replace, replace_seq};

verus! {

/// The canonical path with a leading Windows long-path prefix `\\?\`
/// removed.
pub open spec fn strip_long_prefix(s: Seq<char>) -> Seq<char> {
    if s.len() >= 4 && s.take(4) == "\\\\?\\"@ {
        s.skip(4)
    } else {
        s
    }
}

/// The encoded directory name of one canonical path: the volume-root
/// separator `:\` becomes `--`, then every remaining `\` and `/` becomes
/// `-`.
pub open spec fn encode_path_spec(s: Seq<char>) -> Seq<char> {
    replace_seq(
        replace_seq(replace_seq(strip_long_prefix(s), ":\\"@, "--"@), "\\"@, "-"@),
        "/"@,
        "-"@,
    )
}

/// The project-log directory for one canonical workspace path, under the
/// given home directory.
pub open spec fn project_dir_spec(home: Seq<char>, canonical: Seq<char>) -> Seq<char> {
    home + "/"@ + ".agent"@ + "/"@ + "projects"@ + "/"@ + encode_path_spec(canonical)
}

/// Encodes a canonical absolute path as the agent's project folder name.
pub fn encode_project_path(canonical: &str) -> (r: String)
    ensures
        r@ == encode_path_spec(canonical@),
{
    proof {
        reveal_strlit("\\\\?\\");
        reveal_strlit(":\\");
        reveal_strlit("\\");
        reveal_strlit("/");
    }
    let n = canonical.unicode_len();
    let stripped: &str = if matches_at(canonical, n, 0, "\\\\?\\", 4) {
        proof {
            assert(canonical@.subrange(0, 4) =~= canonical@.take(4));
        }
        canonical.substring_char(4, n)
    } else {
        proof {
            if canonical@.len() >= 4 {
                assert(canonical@.subrange(0, 4) =~= canonical@.take(4));
            }
        }
        canonical
    };
    proof {
        assert(stripped@ =~= strip_long_prefix(canonical@));
    }
    let a = replace(stripped, ":\\", "--");
    let b = replace(a.as_str(), "\\", "-");
    replace(b.as_str(), "/", "-")
}

/// Relies on `dirs::home_dir`: the platform home directory, if the
/// environment defines one, rendered as a string.
#[verifier::external_body]
fn home_dir_string() -> (r: Option<String>) {
    dirs::home_dir().map(|p| p.to_string_lossy().into_owned())
}

/// The project-log directory for a canonical workspace path under a
/// given home directory: the encoded name under `.agent/projects`.
pub fn project_dir_under(home: &str, canonical: &str) -> (r: String)
    ensures
        r@ == project_dir_spec(home@, canonical@),
{
    let p = String::from_str(home).concat("/").concat(".agent").concat("/").concat(
        "projects",
    ).concat("/").concat(encode_project_path(canonical).as_str());
    proof {
        assert(p@ =~= project_dir_spec(home@, canonical@));
    }
    p
}

/// Resolves the agent's project-log directory for a canonical workspace
/// path: [`project_dir_under`] the home directory the environment
/// defines. Fails only when it defines none; what the home lookup
/// returned is pinned only up to existence, so callers that know the
/// home directory use [`project_dir_under`] directly.
pub fn get_agent_project_dir(canonical: &str) -> (r: Result<String, Error>)
    ensures
        r matches Ok(p) ==> exists|h: Seq<char>| p@ == project_dir_spec(h, canonical@),
        r matches Err(e) ==> (e matches Error::Io(f) && f@ == "home directory"@),
{
    match home_dir_string() {
        Some(home) => Ok(project_dir_under(home.as_str(), canonical)),
        None => Err(Error::Io(String::from_str("home directory"))),
    }
}

} // verus!
