//! The typed failures of the library, with their human-readable messages.

use vstd::prelude::*;

verus! {

/// Every failure a caller of the library can see.
///
/// The first three variants are validation failures of a language
/// identifier; the rest are workspace-existence, process and filesystem
/// failures. Tracker failures are logged only and never surfaced.
#[derive(Debug, PartialEq, Eq)]
pub enum Error {
    /// The language identifier is empty.
    EmptyName,
    /// The identifier holds `..`, `/` or `\`.
    PathChars,
    /// The identifier holds a character that is not alphanumeric,
    /// a space or a hyphen.
    BadCharset,
    /// Bootstrap of a language whose workspace directory already exists.
    AlreadyExists(String),
    /// Deletion of a language whose workspace directory does not exist.
    NotFound(String),
    /// A chat operation on a language that was never bootstrapped.
    NotBootstrapped(String),
    /// The external agent binary could not be launched.
    ProcessSpawn(String),
    /// The external agent ran but exited non-zero; carries its error stream.
    ProcessFailure(String),
    /// The detached tracker invocation exceeded its bounded wait.
    TrackerTimeout,
    /// A filesystem read, write or remove failed; carries the file name.
    Io(String),
}

impl Error {
    /// Whether this is a rejection of the language identifier itself.
    pub open spec fn is_validation(&self) -> bool {
        self is EmptyName || self is PathChars || self is BadCharset
    }

    pub open spec fn message_spec(&self) -> Seq<char> {
        match self {
            Error::EmptyName => "Language name cannot be empty"@,
            Error::PathChars => "Language name contains invalid characters"@,
            Error::BadCharset => "Language name can only contain letters, numbers, spaces, and hyphens"@,
            Error::AlreadyExists(l) => "Language '"@ + l@ + "' already exists"@,
            Error::NotFound(l) => "Language '"@ + l@ + "' does not exist"@,
            Error::NotBootstrapped(l) => "Language '"@ + l@
                + "' not set up. Please bootstrap it first."@,
            Error::ProcessSpawn(d) => "Failed to run agent: "@ + d@,
            Error::ProcessFailure(s) => "Agent error: "@ + s@,
            Error::TrackerTimeout => "Tracker timed out"@,
            Error::Io(f) => "File operation failed: "@ + f@,
        }
    }

    /// The human-readable text of the failure.
    pub fn message(&self) -> (r: String)
        ensures
            r@ == self.message_spec(),
    {
        match self {
            Error::EmptyName => String::from_str("Language name cannot be empty"),
            Error::PathChars => String::from_str("Language name contains invalid characters"),
            Error::BadCharset => String::from_str(
                "Language name can only contain letters, numbers, spaces, and hyphens",
            ),
            Error::AlreadyExists(l) => {
                let r = String::from_str("Language '").concat(l.as_str()).concat(
                    "' already exists",
                );
                proof {
                    assert(r@ =~= self.message_spec());
                }
                r
            },
            Error::NotFound(l) => {
                let r = String::from_str("Language '").concat(l.as_str()).concat(
                    "' does not exist",
                );
                proof {
                    assert(r@ =~= self.message_spec());
                }
                r
            },
            Error::NotBootstrapped(l) => {
                let r = String::from_str("Language '").concat(l.as_str()).concat(
                    "' not set up. Please bootstrap it first.",
                );
                proof {
                    assert(r@ =~= self.message_spec());
                }
                r
            },
            Error::ProcessSpawn(d) => {
                let r = String::from_str("Failed to run agent: ").concat(d.as_str());
                proof {
                    assert(r@ =~= self.message_spec());
                }
                r
            },
            Error::ProcessFailure(s) => {
                let r = String::from_str("Agent error: ").concat(s.as_str());
                proof {
                    assert(r@ =~= self.message_spec());
                }
                r
            },
            Error::TrackerTimeout => String::from_str("Tracker timed out"),
            Error::Io(f) => {
                let r = String::from_str("File operation failed: ").concat(f.as_str());
                proof {
                    assert(r@ =~= self.message_spec());
                }
                r
            },
        }
    }
}

} // verus!
