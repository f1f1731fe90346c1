use env_perm::error::ProfileError;
use env_perm::guard::{check_home, home_directory, home_from, home_text, DirProbe};
use std::path::PathBuf;

#[test]
fn writable_home_passes() {
    assert_eq!(check_home(DirProbe::Found { readonly: false }), Ok(()));
}

#[test]
fn read_only_home_is_denied() {
    assert_eq!(
        check_home(DirProbe::Found { readonly: true }),
        Err(ProfileError::PermissionDenied)
    );
}

#[test]
fn missing_home_is_not_found() {
    assert_eq!(check_home(DirProbe::NotFound), Err(ProfileError::ProfileDirNotFound));
}

#[test]
fn home_path_that_is_text_is_kept() {
    assert_eq!(home_text(Some("/home/alice".to_string())), Ok("/home/alice".to_string()));
    assert_eq!(home_text(Some(String::new())), Ok(String::new()));
}

#[test]
fn home_path_that_is_not_text_is_invalid() {
    assert_eq!(home_text(None), Err(ProfileError::InvalidPath));
}

#[test]
fn home_lookup_gives_a_path_or_one_of_its_two_failures() {
    match home_directory() {
        Ok(_) => {}
        Err(e) => assert!(e == ProfileError::HomeNotFound || e == ProfileError::InvalidPath),
    }
}

#[test]
fn home_lookup_is_steady() {
    assert_eq!(home_directory(), home_directory());
}

#[test]
fn every_failure_has_its_message() {
    assert_eq!(ProfileError::HomeNotFound.message(), "No home directory");
    assert_eq!(
        ProfileError::InvalidPath.message(),
        "Failed to coerce Home directory as a valid Path"
    );
    assert_eq!(
        ProfileError::ProfileDirNotFound.message(),
        "Path to profile was invalid, or was not found"
    );
    assert_eq!(
        ProfileError::PermissionDenied.message(),
        "Unable to write to home directory, cannot export env var"
    );
    assert_eq!(
        ProfileError::UnsupportedShell.message(),
        "Unable to match shell_bin with a supported ShellType"
    );
    assert_eq!(ProfileError::NoProfileFound.message(), "No shell profiles were found");
    assert_eq!(ProfileError::Io.message(), "Failed to write to the shell profile");
}

#[test]
fn no_home_from_the_platform_is_not_found() {
    assert_eq!(home_from(None), Err(ProfileError::HomeNotFound));
}

#[test]
fn home_from_the_platform_is_given_as_text() {
    assert_eq!(
        home_from(Some(PathBuf::from("/home/alice"))),
        Ok("/home/alice".to_string())
    );
    assert_eq!(
        home_from(Some(PathBuf::from("/h\u{f4}me/z\u{fc}rich"))),
        Ok("/h\u{f4}me/z\u{fc}rich".to_string())
    );
}

#[test]
fn home_lookup_is_what_home_from_makes_of_a_path() {
    match home_directory() {
        Ok(home) => assert_eq!(home_from(Some(PathBuf::from(home.clone()))), Ok(home)),
        Err(e) => assert!(e == ProfileError::HomeNotFound || e == ProfileError::InvalidPath),
    }
}
