//! The home directory of the user, as the operating system reports it.

use std::path::PathBuf;
use vstd::prelude::*;

verus! {

/// `std::path::PathBuf`, declared so that a home directory can be carried
/// from where it is found to where it is used. Nothing is claimed of what
/// such a value holds.
#[verifier::external_type_specification]
#[verifier::external_body]
pub struct ExPathBuf(std::path::PathBuf);

/// Calls `dirs::home_dir`. Its answer depends on the environment of the
/// process and on the user database, so nothing is claimed of it: it may be
/// any path, or none.
#[verifier::external_body]
pub(crate) fn home_dir() -> (home: Option<PathBuf>) {
    dirs::home_dir()
}

} // verus!
