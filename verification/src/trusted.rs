//! What this crate takes on trust: the items below are believed by Verus as
//! they are stated and are proved nowhere. Everything else in the crate is
//! verified against them.

use std::path::PathBuf;
use vstd::prelude::*;

verus! {

/// `std::path::PathBuf`, carried through as it is: nothing is read from it.
#[verifier::external_type_specification]
#[verifier::external_body]
pub struct ExPathBuf(PathBuf);

/// `PathBuf::clone` returns a path equal to the one it was given.
pub assume_specification[ <PathBuf as Clone>::clone ](path: &PathBuf) -> (copy: PathBuf)
    ensures
        copy == *path,
;

/// Calls `bat::config::get_pager_executable`.
///
/// With no configured pager the answer is drawn from the process: from the
/// variables `BAT_PAGER` and `PAGER`, of which the first shell word is kept,
/// and from the name that the process runs under. It follows that state, so
/// nothing is claimed of it: it may be absent, empty, or any name at all.
#[verifier::external_body]
pub(crate) fn pager_executable(config_pager: Option<&str>) -> (found: Option<String>) {
    bat::config::get_pager_executable(config_pager)
}

} // verus!
