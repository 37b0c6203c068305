//! The abstract state of the data root: a map from lowered language
//! names to the five artifact files of their workspaces. Every exposed
//! operation has a transition over this model, and the laws of the
//! command surface are proved about those transitions. The surrounding
//! application realizes each transition with the corresponding
//! filesystem effect.

use vstd::prelude::*;

use crate::artifacts::{
    config_json_spec, grammar_json_spec, instructions_spec, overrides_json_spec,
    vocabulary_json_spec,
};
use crate::text::{capitalize_seq, lower_of};
use crate::workspace::{validate_spec, valid_language};

verus! {

/// The five artifact files of one bootstrapped workspace, as values.
pub struct LangFiles {
    pub instructions: Seq<char>,
    pub vocabulary: Seq<char>,
    pub grammar: Seq<char>,
    pub overrides: Seq<char>,
    pub config: Seq<char>,
}

/// The failures the model's transitions can name.
pub enum ModelError {
    /// The identifier itself is rejected; nothing is touched.
    Validation,
    /// Bootstrap of an already-bootstrapped language.
    AlreadyExists,
    /// An operation on a language that is not bootstrapped.
    NotFound,
}

/// The artifact files a bootstrap writes, for a language and a date.
pub open spec fn artifacts_model(lang: Seq<char>, date: Seq<char>) -> LangFiles {
    LangFiles {
        instructions: instructions_spec(lang),
        vocabulary: vocabulary_json_spec(lang),
        grammar: grammar_json_spec(lang),
        overrides: overrides_json_spec(lang),
        config: config_json_spec(lang, date),
    }
}

/// Bootstrapping a language: rejected identifiers and existing
/// workspaces change nothing; otherwise the workspace appears, fully
/// populated, under the lowered name.
pub open spec fn bootstrap_model(
    m: Map<Seq<char>, LangFiles>,
    lang: Seq<char>,
    date: Seq<char>,
) -> (Map<Seq<char>, LangFiles>, Result<(), ModelError>) {
    if validate_spec(lang) is Err {
        (m, Err(ModelError::Validation))
    } else if m.dom().contains(lower_of(lang)) {
        (m, Err(ModelError::AlreadyExists))
    } else {
        (m.insert(lower_of(lang), artifacts_model(lang, date)), Ok(()))
    }
}

/// Deleting a language: rejected identifiers and absent workspaces
/// change nothing; otherwise the entire workspace disappears.
pub open spec fn delete_model(m: Map<Seq<char>, LangFiles>, lang: Seq<char>) -> (
    Map<Seq<char>, LangFiles>,
    Result<(), ModelError>,
) {
    if validate_spec(lang) is Err {
        (m, Err(ModelError::Validation))
    } else if !m.dom().contains(lower_of(lang)) {
        (m, Err(ModelError::NotFound))
    } else {
        (m.remove(lower_of(lang)), Ok(()))
    }
}

/// Listing the known workspaces: the display names of the stored
/// (lowered) names. Total — an empty or absent data root lists nothing
/// and never fails.
pub open spec fn list_model(m: Map<Seq<char>, LangFiles>) -> Set<Seq<char>> {
    m.dom().map(|k: Seq<char>| capitalize_seq(k))
}

/// Reading a workspace's vocabulary store.
pub open spec fn vocabulary_model(m: Map<Seq<char>, LangFiles>, lang: Seq<char>) -> Result<
    Seq<char>,
    ModelError,
> {
    if validate_spec(lang) is Err {
        Err(ModelError::Validation)
    } else if !m.dom().contains(lower_of(lang)) {
        Err(ModelError::NotFound)
    } else {
        Ok(m[lower_of(lang)].vocabulary)
    }
}

/// A rejected identifier performs no mutation: bootstrap and delete both
/// return a validation failure and leave every workspace untouched.
pub proof fn lemma_validation_no_mutation(
    m: Map<Seq<char>, LangFiles>,
    lang: Seq<char>,
    date: Seq<char>,
)
    requires
        !valid_language(lang),
    ensures
        bootstrap_model(m, lang, date) == (m, Err::<(), ModelError>(ModelError::Validation)),
        delete_model(m, lang) == (m, Err::<(), ModelError>(ModelError::Validation)),
{
}

/// Bootstrap is not idempotent: after a successful bootstrap, a second
/// bootstrap of the same identifier fails with `AlreadyExists` and
/// leaves the first call's artifacts unmodified.
pub proof fn lemma_bootstrap_not_idempotent(
    m: Map<Seq<char>, LangFiles>,
    lang: Seq<char>,
    d1: Seq<char>,
    d2: Seq<char>,
)
    requires
        bootstrap_model(m, lang, d1).1 is Ok,
    ensures
        bootstrap_model(bootstrap_model(m, lang, d1).0, lang, d2) == (
            bootstrap_model(m, lang, d1).0,
            Err::<(), ModelError>(ModelError::AlreadyExists),
        ),
        bootstrap_model(m, lang, d1).0[lower_of(lang)] == artifacts_model(lang, d1),
{
}

/// Delete on a non-bootstrapped language fails with `NotFound` and
/// changes nothing; delete on a bootstrapped language removes the whole
/// workspace, so the language no longer exists afterwards.
pub proof fn lemma_delete_semantics(m: Map<Seq<char>, LangFiles>, lang: Seq<char>)
    requires
        valid_language(lang),
    ensures
        !m.dom().contains(lower_of(lang)) ==> delete_model(m, lang) == (
            m,
            Err::<(), ModelError>(ModelError::NotFound),
        ),
        m.dom().contains(lower_of(lang)) ==> {
            &&& delete_model(m, lang).1 is Ok
            &&& !delete_model(m, lang).0.dom().contains(lower_of(lang))
        },
{
}

/// An empty data root lists no languages — and listing is total, so it
/// never fails.
pub proof fn lemma_list_empty()
    ensures
        list_model(Map::<Seq<char>, LangFiles>::empty()) =~= Set::<Seq<char>>::empty(),
{
    assert forall|d: Seq<char>| !list_model(Map::<Seq<char>, LangFiles>::empty()).contains(d) by {
        if list_model(Map::<Seq<char>, LangFiles>::empty()).contains(d) {
            let k = choose|k: Seq<char>|
                Map::<Seq<char>, LangFiles>::empty().dom().contains(k) && capitalize_seq(k) == d;
            assert(false);
        }
    }
}

/// Round trip: reading the vocabulary store immediately after a
/// successful bootstrap yields exactly the empty-words skeleton for that
/// language name.
pub proof fn lemma_vocabulary_round_trip(
    m: Map<Seq<char>, LangFiles>,
    lang: Seq<char>,
    date: Seq<char>,
)
    requires
        bootstrap_model(m, lang, date).1 is Ok,
    ensures
        vocabulary_model(bootstrap_model(m, lang, date).0, lang) == Ok::<Seq<char>, ModelError>(
            vocabulary_json_spec(lang),
        ),
{
}

} // verus!
