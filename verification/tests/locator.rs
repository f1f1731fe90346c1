use env_perm::catalog::ProfileRole;
use env_perm::error::ProfileError;
use env_perm::locator::{find_profile, Candidate};

#[test]
fn zsh_search_starts_at_the_profile() {
    let locator = find_profile("/home/alice".to_string(), Some("/bin/zsh")).expect("zsh");
    assert_eq!(
        locator.candidate(),
        Candidate {
            role: ProfileRole::Profile,
            path: "/home/alice/.zprofile".to_string(),
            create: true,
        }
    );
}

#[test]
fn zsh_search_goes_from_profile_to_login_to_rc_file() {
    let locator = find_profile("/home/alice".to_string(), Some("/bin/zsh")).expect("zsh");
    let locator = locator.after_failure().expect("login follows profile");
    assert_eq!(
        locator.candidate(),
        Candidate {
            role: ProfileRole::Login,
            path: "/home/alice/.zlogin".to_string(),
            create: false,
        }
    );
    let locator = locator.after_failure().expect("rc file follows login");
    assert_eq!(
        locator.candidate(),
        Candidate {
            role: ProfileRole::ShellRc,
            path: "/home/alice/.zshrc".to_string(),
            create: false,
        }
    );
    assert_eq!(locator.after_failure().unwrap_err(), ProfileError::NoProfileFound);
}

#[test]
fn bash_search_goes_through_the_bash_files() {
    let locator = find_profile("/Users/bob".to_string(), Some("/usr/local/bin/bash")).expect("bash");
    assert_eq!(
        locator.candidate(),
        Candidate {
            role: ProfileRole::Profile,
            path: "/Users/bob/.bash_profile".to_string(),
            create: true,
        }
    );
    let locator = locator.after_failure().expect("login follows profile");
    assert_eq!(
        locator.candidate(),
        Candidate {
            role: ProfileRole::Login,
            path: "/Users/bob/.bash_login".to_string(),
            create: false,
        }
    );
    let locator = locator.after_failure().expect("rc file follows login");
    assert_eq!(
        locator.candidate(),
        Candidate {
            role: ProfileRole::ShellRc,
            path: "/Users/bob/.bashrc".to_string(),
            create: false,
        }
    );
    assert_eq!(locator.after_failure().unwrap_err(), ProfileError::NoProfileFound);
}

#[test]
fn candidate_does_not_move_the_search() {
    let locator = find_profile("/home/alice".to_string(), Some("zsh")).expect("zsh");
    let first = locator.candidate();
    let second = locator.candidate();
    assert_eq!(first, second);
}

#[test]
fn search_refuses_an_unsupported_shell() {
    assert_eq!(
        find_profile("/home/alice".to_string(), Some("/bin/fish")).unwrap_err(),
        ProfileError::UnsupportedShell
    );
}

#[test]
fn search_refuses_an_empty_shell() {
    assert_eq!(
        find_profile("/home/alice".to_string(), Some("")).unwrap_err(),
        ProfileError::UnsupportedShell
    );
}

#[test]
fn search_refuses_an_absent_shell() {
    assert_eq!(
        find_profile("/home/alice".to_string(), None).unwrap_err(),
        ProfileError::UnsupportedShell
    );
}

#[test]
fn candidate_path_is_home_then_separator_then_file() {
    let locator = find_profile("relative/home".to_string(), Some("bash")).expect("bash");
    assert_eq!(locator.candidate().path, "relative/home/.bash_profile");
    let locator = find_profile("/".to_string(), Some("bash")).expect("bash");
    assert_eq!(locator.candidate().path, "//.bash_profile");
    let locator = find_profile("/h\u{f4}me/z\u{fc}rich".to_string(), Some("zsh")).expect("zsh");
    assert_eq!(locator.candidate().path, "/h\u{f4}me/z\u{fc}rich/.zprofile");
}
