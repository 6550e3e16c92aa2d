//! The search for the profile file.
//!
//! A login shell reads the first of `.bash_profile`, `.bash_login` and
//! `.profile` that it finds in the home directory. The search follows the
//! same order: it tries to open each of the three as it stands, and only
//! when none of them could be opened does it create the first.
//!
//! Opening a file is left to the caller. The search says which file to try
//! next, and the caller reports back when the attempt has failed.

use crate::home::home_dir;
use std::path::PathBuf;
use vstd::prelude::*;

verus! {

/// A file name that a login shell reads its profile from.
#[derive(Clone, Copy, Debug, PartialEq, Eq, Structural)]
pub enum Candidate {
    BashProfile,
    BashLogin,
    Profile,
}

impl Candidate {
    /// The name of the file, relative to the home directory.
    pub open spec fn name(self) -> Seq<char> {
        match self {
            Candidate::BashProfile => ".bash_profile"@,
            Candidate::BashLogin => ".bash_login"@,
            Candidate::Profile => ".profile"@,
        }
    }

    /// The name of the file, relative to the home directory.
    pub fn file_name(&self) -> (name: &'static str)
        ensures
            name@ == self.name(),
    {
        match self {
            Candidate::BashProfile => ".bash_profile",
            Candidate::BashLogin => ".bash_login",
            Candidate::Profile => ".profile",
        }
    }
}

/// One attempt to open a profile for appending.
#[derive(Clone, Copy, Debug, PartialEq, Eq, Structural)]
pub struct Attempt {
    /// The file to open.
    pub candidate: Candidate,
    /// Whether the file is to be created if it does not exist.
    pub create: bool,
}

/// Why no profile is at hand.
#[derive(Clone, Copy, Debug, PartialEq, Eq, Structural)]
pub enum ProfileError {
    /// The home directory of the user could not be determined.
    NoHomeDirectory,
    /// Every attempt of the plan has failed.
    NoProfile,
}

impl ProfileError {
    /// The error in words.
    pub open spec fn text(self) -> Seq<char> {
        match self {
            ProfileError::NoHomeDirectory => "No home directory"@,
            ProfileError::NoProfile => "No profile could be opened or created"@,
        }
    }

    /// The error in words.
    pub fn message(&self) -> (message: &'static str)
        ensures
            message@ == self.text(),
    {
        match self {
            ProfileError::NoHomeDirectory => "No home directory",
            ProfileError::NoProfile => "No profile could be opened or created",
        }
    }
}

/// The attempts of a search, in the order in which they are made.
pub open spec fn plan() -> Seq<Attempt> {
    seq![
        Attempt { candidate: Candidate::BashProfile, create: false },
        Attempt { candidate: Candidate::BashLogin, create: false },
        Attempt { candidate: Candidate::Profile, create: false },
        Attempt { candidate: Candidate::BashProfile, create: true },
    ]
}

/// Where a search goes when the attempt at index `failed` of the plan has
/// failed: to the next attempt, or nowhere once the plan is used up.
pub open spec fn next_after(failed: nat) -> Option<nat> {
    if failed + 1 < plan().len() {
        Some((failed + 1) as nat)
    } else {
        None
    }
}

/// How a search that stands at index `at` of the plan ends, when `opens[i]`
/// tells whether the attempt at index `i` opens its file: with the index of
/// the attempt that opened the profile, or with none.
pub open spec fn outcome(opens: Seq<bool>, at: nat) -> Option<nat>
    recommends
        opens.len() == plan().len(),
        at < plan().len(),
    decreases plan().len() - at,
{
    if opens[at as int] {
        Some(at)
    } else {
        match next_after(at) {
            Some(next) => outcome(opens, next),
            None => None,
        }
    }
}

/// From any attempt of the plan on, the search ends with the first attempt
/// that opens its file, or with none where every attempt that was left
/// failed.
proof fn lemma_outcome_from(opens: Seq<bool>, at: nat)
    requires
        opens.len() == plan().len(),
        at < plan().len(),
    ensures
        match outcome(opens, at) {
            Some(index) => at <= index < plan().len() && opens[index as int] && forall|j: int|
                at <= j < index ==> !opens[j],
            None => forall|j: int| at <= j < plan().len() ==> !opens[j],
        },
    decreases plan().len() - at,
{
    if !opens[at as int] && at + 1 < plan().len() {
        lemma_outcome_from(opens, (at + 1) as nat);
    }
}

/// The search falls back through the plan in its fixed order: whatever the
/// attempts meet, a search made from the start ends with the first attempt
/// of the plan that opens its file, after every attempt before it has
/// failed, and it ends without a profile only when all attempts failed.
pub proof fn law_first_that_opens(opens: Seq<bool>)
    requires
        opens.len() == plan().len(),
    ensures
        match outcome(opens, 0) {
            Some(index) => index < plan().len() && opens[index as int] && forall|j: int|
                0 <= j < index ==> !opens[j],
            None => forall|j: int| 0 <= j < plan().len() ==> !opens[j],
        },
{
    lemma_outcome_from(opens, 0);
}

/// A file is created only on total absence: the search ends with a file it
/// created exactly when none of the three files could be opened as it stood
/// and the creation succeeded, and the file created is the one it tried
/// first.
pub proof fn law_creates_first_on_total_absence(opens: Seq<bool>)
    requires
        opens.len() == plan().len(),
    ensures
        (outcome(opens, 0) matches Some(index) && plan()[index as int].create) <==> (!opens[0]
            && !opens[1] && !opens[2] && opens[3]),
        outcome(opens, 0) matches Some(index) ==> (plan()[index as int].create
            ==> plan()[index as int].candidate == plan()[0].candidate),
{
    lemma_outcome_from(opens, 0);
}

/// A search for the profile in one home directory, standing before one of
/// the attempts of the plan.
#[derive(Debug)]
pub struct Search {
    home: PathBuf,
    failed: u8,
}

impl Search {
    #[verifier::type_invariant]
    spec fn in_plan(self) -> bool {
        self.failed < plan().len()
    }

    /// The home directory that is searched.
    pub closed spec fn home_dir(self) -> PathBuf {
        self.home
    }

    /// The number of attempts that have failed, which is the index in the
    /// plan of the attempt to make now.
    pub closed spec fn failed(self) -> nat {
        self.failed as nat
    }

    /// The home directory that is searched.
    pub fn home(&self) -> (home: &PathBuf)
        ensures
            *home == self.home_dir(),
    {
        &self.home
    }

    /// The attempt to make now.
    pub fn attempt(&self) -> (attempt: Attempt)
        ensures
            self.failed() < plan().len(),
            attempt == plan()[self.failed() as int],
    {
        proof {
            use_type_invariant(self);
        }
        if self.failed == 0 {
            Attempt { candidate: Candidate::BashProfile, create: false }
        } else if self.failed == 1 {
            Attempt { candidate: Candidate::BashLogin, create: false }
        } else if self.failed == 2 {
            Attempt { candidate: Candidate::Profile, create: false }
        } else {
            Attempt { candidate: Candidate::BashProfile, create: true }
        }
    }

    /// The search after the attempt it stood before has failed: before the
    /// next attempt in the same home directory, or at its end.
    pub fn after_failure(self) -> (next: Result<Search, ProfileError>)
        ensures
            match next_after(self.failed()) {
                Some(index) => next matches Ok(search) && search.failed() == index
                    && search.home_dir() == self.home_dir(),
                None => next == Err::<Search, ProfileError>(ProfileError::NoProfile),
            },
    {
        proof {
            use_type_invariant(&self);
        }
        if self.failed < 3 {
            Ok(Search { home: self.home, failed: self.failed + 1 })
        } else {
            Err(ProfileError::NoProfile)
        }
    }
}

/// Begins the search in `home`, before the first attempt of the plan.
pub fn find_profile(home: PathBuf) -> (search: Search)
    ensures
        search.home_dir() == home,
        search.failed() == 0,
{
    Search { home, failed: 0 }
}

/// Begins the search in `home`, where there is one.
pub fn profile_in(home: Option<PathBuf>) -> (search: Result<Search, ProfileError>)
    ensures
        match home {
            Some(dir) => search matches Ok(s) && s.home_dir() == dir && s.failed() == 0,
            None => search == Err::<Search, ProfileError>(ProfileError::NoHomeDirectory),
        },
{
    match home {
        Some(dir) => Ok(find_profile(dir)),
        None => Err(ProfileError::NoHomeDirectory),
    }
}

/// Begins the search in the home directory of the user. The directory is
/// whatever the operating system reports at the time of the call; the only
/// error is that it reports none.
pub fn get_profile() -> (search: Result<Search, ProfileError>)
    ensures
        match search {
            Ok(s) => s.failed() == 0,
            Err(e) => e == ProfileError::NoHomeDirectory,
        },
{
    profile_in(home_dir())
}

} // verus!
