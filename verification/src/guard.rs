//! The home directory: finding it, and checking that it can be written to
//! before any file in it is touched.

use crate::error::ProfileError;
use boolinator::Boolinator;
use std::path::PathBuf;
use vstd::prelude::*;

verus! {

/// `std::path::PathBuf`, carried from the lookup of the home directory to
/// its conversion into text. Nothing is known of what it holds.
#[verifier::external_type_specification]
#[verifier::external_body]
pub struct ExPathBuf(PathBuf);

/// What a look at the home directory's metadata gave.
#[derive(Clone, Copy, Debug, PartialEq, Eq, Structural)]
pub enum DirProbe {
    /// The path leads to nothing that can be examined.
    NotFound,
    /// The directory is there, and is read-only or not.
    Found { readonly: bool },
}

/// `dirs::home_dir`: the user's home directory as the platform reports it,
/// or nothing. The answer depends on the environment, so nothing is claimed
/// of it.
#[verifier::external_body]
fn platform_home() -> (home: Option<PathBuf>) {
    dirs::home_dir()
}

/// What `Path::to_str` makes of a path: its text, or nothing where the path
/// is not valid Unicode.
pub uninterp spec fn text_of_path(path: PathBuf) -> Option<Seq<char>>;

/// `Path::to_str`: the path as text, or nothing where it is not valid
/// Unicode. Which of the two it is, and the text, depend on the path alone;
/// nothing more is claimed of them.
#[verifier::external_body]
fn path_text(path: &PathBuf) -> (text: Option<String>)
    ensures
        text.deep_view() == text_of_path(*path),
{
    match path.to_str() {
        Some(t) => Some(t.to_owned()),
        None => None,
    }
}

/// `Boolinator::as_result` on a `bool`: `Ok(ok)` where the flag is true,
/// `Err(err)` where it is false.
#[verifier::external_body]
fn bool_as_result<T, E>(flag: bool, ok: T, err: E) -> (r: Result<T, E>)
    ensures
        r == (if flag {
            Ok::<T, E>(ok)
        } else {
            Err::<T, E>(err)
        }),
{
    flag.as_result(ok, err)
}

/// What the guard makes of a home directory whose path may or may not be
/// text: the text, or `InvalidPath`.
pub open spec fn as_home_text(text: Option<String>) -> Result<String, ProfileError> {
    match text {
        Some(t) => Ok(t),
        None => Err(ProfileError::InvalidPath),
    }
}

/// What the guard makes of the home directory's metadata: the directory
/// passes if it is there and can be written to.
pub open spec fn guarded(probe: DirProbe) -> Result<(), ProfileError> {
    match probe {
        DirProbe::NotFound => Err(ProfileError::ProfileDirNotFound),
        DirProbe::Found { readonly } => if readonly {
            Err(ProfileError::PermissionDenied)
        } else {
            Ok(())
        },
    }
}

/// The texts of the outcome of the lookup of the home directory.
pub open spec fn home_view(home: Result<String, ProfileError>) -> Result<Seq<char>, ProfileError> {
    match home {
        Ok(h) => Ok(h@),
        Err(e) => Err(e),
    }
}

/// What the guard makes of the platform's answer on the home directory:
/// `HomeNotFound` where there is none; where there is one, its path as
/// text, or `InvalidPath` where the path is not text.
pub open spec fn home_outcome(found: Option<PathBuf>) -> Result<Seq<char>, ProfileError> {
    match found {
        None => Err(ProfileError::HomeNotFound),
        Some(path) => match text_of_path(path) {
            Some(text) => Ok(text),
            None => Err(ProfileError::InvalidPath),
        },
    }
}

/// The outcomes that the lookup of the home directory can have: a path, or
/// one of the two failures of the lookup.
pub open spec fn is_home_outcome(home: Result<String, ProfileError>) -> bool {
    home matches Err(e) ==> e == ProfileError::HomeNotFound || e == ProfileError::InvalidPath
}

/// Turns the text of the home directory's path, where it has one, into the
/// guard's answer.
pub fn home_text(text: Option<String>) -> (home: Result<String, ProfileError>)
    ensures
        home == as_home_text(text),
{
    match text {
        Some(t) => Ok(t),
        None => Err(ProfileError::InvalidPath),
    }
}

/// Looks the home directory up and gives its path as text. Fails with
/// `HomeNotFound` where the platform reports none and with `InvalidPath`
/// where the path is not text; which of the three it is depends on the
/// environment alone.
pub fn home_directory() -> (home: Result<String, ProfileError>)
    ensures
        is_home_outcome(home),
{
    home_from(platform_home())
}

/// Turns the platform's answer on the home directory into the guard's:
/// the path as text where there is a home directory and its path is text,
/// `HomeNotFound` where there is none, `InvalidPath` where the path is not
/// text.
pub fn home_from(found: Option<PathBuf>) -> (home: Result<String, ProfileError>)
    ensures
        home_view(home) == home_outcome(found),
{
    match found {
        None => Err(ProfileError::HomeNotFound),
        Some(path) => home_text(path_text(&path)),
    }
}

/// Checks the home directory against what its metadata showed. Fails with
/// `ProfileDirNotFound` where the directory is not there and with
/// `PermissionDenied` where it is read-only; passes otherwise.
pub fn check_home(probe: DirProbe) -> (passed: Result<(), ProfileError>)
    ensures
        passed == guarded(probe),
{
    match probe {
        DirProbe::NotFound => Err(ProfileError::ProfileDirNotFound),
        DirProbe::Found { readonly } => bool_as_result(
            !readonly,
            (),
            ProfileError::PermissionDenied,
        ),
    }
}

} // verus!
