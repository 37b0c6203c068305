//! Workspace resolution: validating a learner-chosen language identifier
//! and mapping it to its isolated directory under the data root.
//!
//! The identifier-to-directory mapping is a pure function: the directory
//! name is the Unicode-lowered identifier, placed under `<root>/data`.

use vstd::prelude::*;

use crate::error::Error;
use crate::text::{lower_of, lowercase};

verus! {

/// What `char::is_alphanumeric` returns: a function of the character alone.
pub uninterp spec fn is_alnum(c: char) -> bool;

/// Relies on `char::is_alphanumeric`: whether the character is a Unicode
/// letter or number; the result depends on the character alone.
#[verifier::external_body]
fn char_is_alphanumeric(c: char) -> (r: bool)
    ensures
        r == is_alnum(c),
{
    c.is_alphanumeric()
}

/// A character the identifier charset admits.
pub open spec fn valid_char(c: char) -> bool {
    is_alnum(c) || c == ' ' || c == '-'
}

/// The identifier holds `..`, `/` or `\`: a path-traversal risk.
pub open spec fn has_path_chars(s: Seq<char>) -> bool {
    (exists|i: int| 0 <= i && i + 1 < s.len() && #[trigger] s[i] == '.' && s[i + 1] == '.')
        || s.contains('/') || s.contains('\\')
}

/// A language identifier the resolver accepts.
pub open spec fn valid_language(s: Seq<char>) -> bool {
    &&& s.len() > 0
    &&& !has_path_chars(s)
    &&& forall|i: int| 0 <= i < s.len() ==> valid_char(#[trigger] s[i])
}

/// The exact outcome of validation, with the rule each rejection names.
pub open spec fn validate_spec(s: Seq<char>) -> Result<(), Error> {
    if s.len() == 0 {
        Err(Error::EmptyName)
    } else if has_path_chars(s) {
        Err(Error::PathChars)
    } else if exists|i: int| 0 <= i < s.len() && !valid_char(#[trigger] s[i]) {
        Err(Error::BadCharset)
    } else {
        Ok(())
    }
}

/// Rejects empty identifiers, path-traversal sequences and separators,
/// and any character outside {alphanumeric, space, hyphen}.
pub fn validate_language_name(language: &str) -> (r: Result<(), Error>)
    ensures
        r == validate_spec(language@),
        r is Ok <==> valid_language(language@),
{
    let n = language.unicode_len();
    if n == 0 {
        return Err(Error::EmptyName);
    }
    let mut i: usize = 0;
    while i < n
        invariant
            n == language@.len(),
            i <= n,
            forall|j: int|
                0 <= j < i && j + 1 < n ==> !(#[trigger] language@[j] == '.' && language@[j + 1]
                    == '.'),
            forall|j: int| 0 <= j < i ==> language@[j] != '/' && language@[j] != '\\',
        decreases n - i,
    {
        let c = language.get_char(i);
        if c == '/' || c == '\\' {
            return Err(Error::PathChars);
        }
        if c == '.' && i + 1 < n && language.get_char(i + 1) == '.' {
            return Err(Error::PathChars);
        }
        i = i + 1;
    }
    proof {
        assert(!has_path_chars(language@)) by {
            if language@.contains('/') {
                let k = choose|k: int|
                    0 <= k < language@.len() && language@[k] == '/';
                assert(false);
            }
            if language@.contains('\\') {
                let k = choose|k: int|
                    0 <= k < language@.len() && language@[k] == '\\';
                assert(false);
            }
        }
    }
    let mut i: usize = 0;
    while i < n
        invariant
            n == language@.len(),
            n > 0,
            !has_path_chars(language@),
            i <= n,
            forall|j: int| 0 <= j < i ==> valid_char(#[trigger] language@[j]),
        decreases n - i,
    {
        let c = language.get_char(i);
        if !(char_is_alphanumeric(c) || c == ' ' || c == '-') {
            proof {
                assert(!valid_char(language@[i as int]));
            }
            return Err(Error::BadCharset);
        }
        i = i + 1;
    }
    Ok(())
}

/// The data root: the `data` directory under the configured root path.
pub open spec fn data_dir_spec(root: Seq<char>) -> Seq<char> {
    root + "/data"@
}

/// The directory of one language workspace: the Unicode-lowered
/// identifier under the data root.
pub open spec fn language_dir_spec(root: Seq<char>, lang: Seq<char>) -> Seq<char> {
    data_dir_spec(root) + "/"@ + lower_of(lang)
}

/// Resolves the data directory under the application's root path.
pub fn get_data_dir(root: &str) -> (r: String)
    ensures
        r@ == data_dir_spec(root@),
{
    String::from_str(root).concat("/data")
}

/// Resolves a language identifier to its workspace directory, after
/// validation; the mapping lowers the identifier, so it is
/// case-insensitive.
pub fn get_language_dir(root: &str, language: &str) -> (r: Result<String, Error>)
    ensures
        r is Ok <==> valid_language(language@),
        r matches Err(e) ==> Err::<(), Error>(e) == validate_spec(language@),
        r matches Ok(p) ==> p@ == language_dir_spec(root@, language@),
{
    match validate_language_name(language) {
        Err(e) => Err(e),
        Ok(()) => {
            let lowered = lowercase(language);
            let p = get_data_dir(root).concat("/").concat(lowered.as_str());
            Ok(p)
        },
    }
}

/// Resolution is case-insensitive: identifiers with the same Unicode
/// lowering are mapped to the same workspace directory; in particular an
/// identifier and its lowered form are, since the lowering is idempotent
/// (every string `lowercase` returns satisfies `lower_of(r) == r`, by
/// the wrapper's contract, which discharges the second hypothesis).
pub proof fn lemma_resolve_case_insensitive(root: Seq<char>, a: Seq<char>, b: Seq<char>)
    ensures
        lower_of(a) == lower_of(b) ==> language_dir_spec(root, a) == language_dir_spec(root, b),
        lower_of(lower_of(a)) == lower_of(a) ==> language_dir_spec(root, lower_of(a))
            == language_dir_spec(root, a),
{
}

} // verus!
