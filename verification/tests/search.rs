//! The search for the profile file.

use env_perm::profile::{
    find_profile, get_profile, profile_in, Attempt, Candidate, ProfileError, Search,
};
use std::path::PathBuf;

/// Runs a search in `/home/alice` in which the attempt at index `i` succeeds
/// where `opens[i]` says so, and returns the attempts made and how it ended.
fn run(opens: [bool; 4]) -> (Vec<Attempt>, Result<Attempt, ProfileError>) {
    let mut made = Vec::new();
    let mut search = find_profile(PathBuf::from("/home/alice"));
    loop {
        let attempt = search.attempt();
        let index = made.len();
        made.push(attempt);
        assert!(index < 4);
        if opens[index] {
            return (made, Ok(attempt));
        }
        match search.after_failure() {
            Ok(next) => search = next,
            Err(error) => return (made, Err(error)),
        }
    }
}

fn plan() -> Vec<Attempt> {
    vec![
        Attempt { candidate: Candidate::BashProfile, create: false },
        Attempt { candidate: Candidate::BashLogin, create: false },
        Attempt { candidate: Candidate::Profile, create: false },
        Attempt { candidate: Candidate::BashProfile, create: true },
    ]
}

#[test]
fn candidates_have_the_names_a_login_shell_reads() {
    assert_eq!(Candidate::BashProfile.file_name(), ".bash_profile");
    assert_eq!(Candidate::BashLogin.file_name(), ".bash_login");
    assert_eq!(Candidate::Profile.file_name(), ".profile");
}

#[test]
fn search_begins_with_bash_profile_as_it_stands() {
    let search = find_profile(PathBuf::from("/home/alice"));
    let attempt = search.attempt();
    assert_eq!(attempt.candidate, Candidate::BashProfile);
    assert!(!attempt.create);
    assert_eq!(attempt.candidate.file_name(), ".bash_profile");
}

#[test]
fn search_falls_back_in_fixed_order() {
    let search = find_profile(PathBuf::from("/home/alice"));
    assert_eq!(search.attempt(), Attempt { candidate: Candidate::BashProfile, create: false });
    let search = search.after_failure().unwrap();
    assert_eq!(search.attempt(), Attempt { candidate: Candidate::BashLogin, create: false });
    let search = search.after_failure().unwrap();
    assert_eq!(search.attempt(), Attempt { candidate: Candidate::Profile, create: false });
    let search = search.after_failure().unwrap();
    assert_eq!(search.attempt(), Attempt { candidate: Candidate::BashProfile, create: true });
}

#[test]
fn search_ends_when_the_creation_fails() {
    let search = find_profile(PathBuf::from("/home/alice"));
    let search = search.after_failure().unwrap();
    let search = search.after_failure().unwrap();
    let search = search.after_failure().unwrap();
    assert_eq!(search.after_failure().err(), Some(ProfileError::NoProfile));
}

#[test]
fn search_stays_in_its_home_directory() {
    let home = PathBuf::from("/home/alice");
    let mut search = find_profile(home.clone());
    assert_eq!(search.home(), &home);
    for _ in 0..3 {
        search = search.after_failure().unwrap();
        assert_eq!(search.home(), &home);
    }
}

#[test]
fn attempt_does_not_move_the_search() {
    let search = find_profile(PathBuf::from("/home/alice"));
    let search = search.after_failure().unwrap();
    assert_eq!(search.attempt(), search.attempt());
    assert_eq!(search.attempt().candidate, Candidate::BashLogin);
}

#[test]
fn existing_bash_profile_is_taken_at_once() {
    let (made, end) = run([true, true, true, true]);
    assert_eq!(made, plan()[..1].to_vec());
    assert_eq!(end, Ok(Attempt { candidate: Candidate::BashProfile, create: false }));
}

#[test]
fn bash_login_is_taken_when_bash_profile_is_missing() {
    let (made, end) = run([false, true, true, true]);
    assert_eq!(made, plan()[..2].to_vec());
    assert_eq!(end, Ok(Attempt { candidate: Candidate::BashLogin, create: false }));
}

#[test]
fn profile_is_taken_when_both_bash_files_are_missing() {
    let (made, end) = run([false, false, true, true]);
    assert_eq!(made, plan()[..3].to_vec());
    assert_eq!(end, Ok(Attempt { candidate: Candidate::Profile, create: false }));
}

#[test]
fn bash_profile_is_created_on_total_absence() {
    let (made, end) = run([false, false, false, true]);
    assert_eq!(made, plan());
    assert_eq!(end, Ok(Attempt { candidate: Candidate::BashProfile, create: true }));
}

#[test]
fn no_profile_when_every_attempt_fails() {
    let (made, end) = run([false, false, false, false]);
    assert_eq!(made, plan());
    assert_eq!(end, Err(ProfileError::NoProfile));
}

#[test]
fn search_ends_with_the_first_attempt_that_opens() {
    for bits in 0..16usize {
        let opens = [bits & 1 != 0, bits & 2 != 0, bits & 4 != 0, bits & 8 != 0];
        let (made, end) = run(opens);
        match opens.iter().position(|&opened| opened) {
            Some(first) => {
                assert_eq!(made, plan()[..first + 1].to_vec());
                assert_eq!(end, Ok(plan()[first]));
                assert_eq!(plan()[first].create, first == 3);
            }
            None => {
                assert_eq!(made, plan());
                assert_eq!(end, Err(ProfileError::NoProfile));
            }
        }
    }
}

#[test]
fn no_search_without_a_home_directory() {
    assert_eq!(profile_in(None).err(), Some(ProfileError::NoHomeDirectory));
}

#[test]
fn search_in_a_given_home_directory() {
    let home = PathBuf::from("/home/bob");
    let search: Search = profile_in(Some(home.clone())).unwrap();
    assert_eq!(search.home(), &home);
    assert_eq!(search.attempt(), Attempt { candidate: Candidate::BashProfile, create: false });
}

#[test]
fn search_in_the_home_directory_of_the_user() {
    match get_profile() {
        Ok(search) => {
            assert_eq!(
                search.attempt(),
                Attempt { candidate: Candidate::BashProfile, create: false }
            );
            assert_eq!(Some(search.home().clone()), dirs::home_dir());
        }
        Err(error) => {
            assert_eq!(error, ProfileError::NoHomeDirectory);
            assert_eq!(dirs::home_dir(), None);
        }
    }
}

#[test]
fn errors_in_words() {
    assert_eq!(ProfileError::NoHomeDirectory.message(), "No home directory");
    assert_eq!(ProfileError::NoProfile.message(), "No profile could be opened or created");
}
