//! Permanent environment variables.
//!
//! A variable is made permanent by appending an `export` statement to the
//! shell profile of the user. This crate decides what is appended and where:
//! it writes the statements, and it directs the search for the profile among
//! the file names that a login shell reads. Opening the file and writing to
//! it are left to the caller.
//!
//! The four operations below append their statement to a profile held in
//! memory. Nothing that the profile held before is read or changed, and no
//! operation looks for an earlier statement on the same variable: two calls
//! leave two statements.

use vstd::prelude::*;

mod home;
pub mod profile;
pub mod statement;

use crate::statement::{append_line, append_to_end_line, set_line};

pub use crate::profile::{
    find_profile, get_profile, profile_in, Attempt, Candidate, ProfileError, Search,
};

verus! {

/// Sets `var` to `value` unless it is set already. `defined` says whether
/// the environment of the process holds `var`: where it does, the profile is
/// left as it is; where it does not, the statement of `set` is appended.
/// Returns whether a statement was appended.
pub fn check_or_set(profile: &mut String, var: &str, value: &str, defined: bool) -> (appended: bool)
    ensures
        appended == !defined,
        defined ==> *final(profile) == *old(profile),
        !defined ==> final(profile)@ == old(profile)@ + set_line(var@, value@),
{
    if defined {
        false
    } else {
        set(profile, var, value);
        true
    }
}

/// Appends to `profile` the statement that puts `value`, followed by a
/// colon, in front of what `var` holds: `export VAR="VALUE:$VAR"`.
pub fn append(profile: &mut String, var: &str, value: &str)
    ensures
        final(profile)@ == old(profile)@ + append_line(var@, value@),
{
    profile.append("\nexport ");
    profile.append(var);
    profile.append("=\"");
    profile.append(value);
    profile.append(":$");
    profile.append(var);
    profile.append("\"\n");
    assert(profile@ =~= old(profile)@ + append_line(var@, value@));
}

/// Appends to `profile` the statement that puts `value`, after a colon,
/// behind what `var` holds: `export VAR="$VAR:VALUE"`.
pub fn append_to_end(profile: &mut String, var: &str, value: &str)
    ensures
        final(profile)@ == old(profile)@ + append_to_end_line(var@, value@),
{
    profile.append("\nexport ");
    profile.append(var);
    profile.append("=\"$");
    profile.append(var);
    profile.append(":");
    profile.append(value);
    profile.append("\"\n");
    assert(profile@ =~= old(profile)@ + append_to_end_line(var@, value@));
}

/// Appends to `profile` the statement that sets `var` to `value`,
/// `export VAR=VALUE`, whether or not `var` is set already.
pub fn set(profile: &mut String, var: &str, value: &str)
    ensures
        final(profile)@ == old(profile)@ + set_line(var@, value@),
{
    profile.append("\nexport ");
    profile.append(var);
    profile.append("=");
    profile.append(value);
    profile.append("\n");
    assert(profile@ =~= old(profile)@ + set_line(var@, value@));
}

} // verus!
