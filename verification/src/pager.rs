//! The pager policy: which executable is paged through, given the name that
//! the user or the process environment proposes.
//!
//! A candidate is taken as it is unless it is missing, empty, or one of the
//! pagers known to misbehave when a program drives them; in each of those
//! cases the built-in default stands in. Names are compared exactly,
//! character for character, so the comparison is case-sensitive.

use vstd::prelude::*;
use crate::text::same_text;
use crate::trusted::pager_executable;

verus! {

/// The pager that stands in for a candidate that cannot be used.
pub const DEFAULT_PAGER: &'static str = "less";

/// Whether `name` is one of the pagers that are never handed out: `more` and
/// `most` neither scroll nor colour properly under a program's control.
pub open spec fn is_unsafe_pager(name: Seq<char>) -> bool {
    name == "more"@ || name == "most"@
}

/// Whether `name` may be handed out as it is: it is not empty and not an
/// unsafe pager.
pub open spec fn is_usable_pager(name: Seq<char>) -> bool {
    name.len() > 0 && !is_unsafe_pager(name)
}

/// The pager that the policy picks for `candidate`: the candidate itself
/// where it is usable, the default otherwise.
pub open spec fn safe_pager_name(candidate: Option<Seq<char>>) -> Seq<char> {
    match candidate {
        Some(name) => if is_usable_pager(name) {
            name
        } else {
            DEFAULT_PAGER@
        },
        None => DEFAULT_PAGER@,
    }
}

/// A missing candidate and an empty one are both replaced by the default
/// pager.
pub proof fn lemma_missing_candidate_gives_default()
    ensures
        safe_pager_name(None) == DEFAULT_PAGER@,
        safe_pager_name(Some(Seq::<char>::empty())) == DEFAULT_PAGER@,
{
}

/// The candidates `more` and `most` are replaced by the default pager.
pub proof fn lemma_unsafe_candidate_gives_default()
    ensures
        safe_pager_name(Some("more"@)) == DEFAULT_PAGER@,
        safe_pager_name(Some("most"@)) == DEFAULT_PAGER@,
{
}

/// A candidate that is neither empty nor unsafe is picked unchanged.
pub proof fn lemma_usable_candidate_is_kept(name: Seq<char>)
    requires
        name.len() > 0,
        !is_unsafe_pager(name),
    ensures
        safe_pager_name(Some(name)) == name,
{
}

/// The default pager is itself usable, so whatever the candidate, the pager
/// that the policy picks is neither empty nor unsafe.
pub proof fn lemma_picked_pager_is_usable(candidate: Option<Seq<char>>)
    ensures
        is_usable_pager(DEFAULT_PAGER@),
        is_usable_pager(safe_pager_name(candidate)),
{
    reveal_strlit("less");
    reveal_strlit("more");
    reveal_strlit("most");
    assert("less"@[0] != "more"@[0]);
    assert("less"@[0] != "most"@[0]);
}

/// Applying the policy to a pager that it picked changes nothing.
pub proof fn lemma_policy_is_idempotent(candidate: Option<Seq<char>>)
    ensures
        safe_pager_name(Some(safe_pager_name(candidate))) == safe_pager_name(candidate),
{
    lemma_picked_pager_is_usable(candidate);
}

/// Tells an unsafe pager from any other name.
pub fn is_unsafe(name: &str) -> (found: bool)
    ensures
        found == is_unsafe_pager(name@),
{
    same_text(name, "more") || same_text(name, "most")
}

/// Applies the policy to `candidate`.
pub fn safe_pager(candidate: Option<&str>) -> (pager: String)
    ensures
        pager@ == safe_pager_name(candidate.deep_view()),
{
    match candidate {
        Some(name) => {
            if !name.is_empty() && !is_unsafe(name) {
                name.to_owned()
            } else {
                DEFAULT_PAGER.to_owned()
            }
        },
        None => DEFAULT_PAGER.to_owned(),
    }
}

/// Resolves the pager to page through.
///
/// An `explicit` name is the candidate, and the process is not consulted.
/// Without one the candidate is the pager that the process environment
/// selects. Either way the policy decides what becomes of the candidate: see
/// `safe_pager_name`. What the environment selects is not known here, so of
/// the pager resolved from it the contract says what holds of every pager
/// that the policy picks, that it is usable.
pub fn resolve_pager(explicit: Option<&str>) -> (pager: String)
    ensures
        explicit is Some ==> pager@ == safe_pager_name(explicit.deep_view()),
        is_usable_pager(pager@),
{
    proof {
        lemma_picked_pager_is_usable(explicit.deep_view());
    }
    match explicit {
        Some(name) => safe_pager(Some(name)),
        None => {
            let ambient = pager_executable(None);
            proof {
                lemma_picked_pager_is_usable(ambient.deep_view());
            }
            match &ambient {
                Some(name) => safe_pager(Some(name.as_str())),
                None => safe_pager(None),
            }
        },
    }
}

} // verus!
