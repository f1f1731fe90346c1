//! The startup files of each recognized shell, by the role they play.

use crate::shell::ShellKind;
use vstd::prelude::*;

verus! {

/// The part that a startup file plays for its shell. The roles are tried in
/// the order in which they stand here.
#[derive(Clone, Copy, Debug, PartialEq, Eq, Structural)]
pub enum ProfileRole {
    /// Read at login; the one file that may be created.
    Profile,
    /// Read at login, after the profile.
    Login,
    /// Read by every interactive shell.
    ShellRc,
}

impl ProfileRole {
    /// The role that is tried after this one, if any.
    pub open spec fn successor(self) -> Option<ProfileRole> {
        match self {
            ProfileRole::Profile => Some(ProfileRole::Login),
            ProfileRole::Login => Some(ProfileRole::ShellRc),
            ProfileRole::ShellRc => None,
        }
    }

    /// Whether a missing file of this role may be created.
    pub open spec fn may_create(self) -> bool {
        self is Profile
    }

    /// The place of the role in the order of the search, from 0.
    pub open spec fn rank(self) -> nat {
        match self {
            ProfileRole::Profile => 0,
            ProfileRole::Login => 1,
            ProfileRole::ShellRc => 2,
        }
    }

    /// The role with which every search starts.
    pub fn first() -> (role: ProfileRole)
        ensures
            role == ProfileRole::Profile,
            role.rank() == 0,
    {
        ProfileRole::Profile
    }

    /// The role to try once this one has failed.
    pub fn next(self) -> (role: Option<ProfileRole>)
        ensures
            role == self.successor(),
            role matches Some(r) ==> r.rank() == self.rank() + 1,
    {
        match self {
            ProfileRole::Profile => Some(ProfileRole::Login),
            ProfileRole::Login => Some(ProfileRole::ShellRc),
            ProfileRole::ShellRc => None,
        }
    }

    /// Whether a missing file of this role may be created: true of the
    /// profile alone.
    pub fn creatable(self) -> (create: bool)
        ensures
            create == self.may_create(),
    {
        match self {
            ProfileRole::Profile => true,
            _ => false,
        }
    }
}

/// The name of the startup file that plays `role` for `shell`. An
/// unrecognized shell has no such file: the name is empty.
pub open spec fn catalog_file(shell: ShellKind, role: ProfileRole) -> Seq<char> {
    match (shell, role) {
        (ShellKind::Zsh, ProfileRole::Profile) => ".zprofile"@,
        (ShellKind::Zsh, ProfileRole::Login) => ".zlogin"@,
        (ShellKind::Zsh, ProfileRole::ShellRc) => ".zshrc"@,
        (ShellKind::Bash, ProfileRole::Profile) => ".bash_profile"@,
        (ShellKind::Bash, ProfileRole::Login) => ".bash_login"@,
        (ShellKind::Bash, ProfileRole::ShellRc) => ".bashrc"@,
        (ShellKind::Unrecognized, _) => Seq::empty(),
    }
}

/// The startup files of one shell.
#[derive(Clone, Copy, Debug)]
pub struct ShellProfileEntry {
    shell: ShellKind,
    profile: &'static str,
    login: &'static str,
    shellrc: &'static str,
}

impl ShellProfileEntry {
    /// The shell whose files these are.
    pub closed spec fn kind(self) -> ShellKind {
        self.shell
    }

    /// The file name that the entry holds for `role`.
    pub closed spec fn name(self, role: ProfileRole) -> Seq<char> {
        match role {
            ProfileRole::Profile => self.profile@,
            ProfileRole::Login => self.login@,
            ProfileRole::ShellRc => self.shellrc@,
        }
    }

    /// The entry holds what the catalog lists for its shell.
    pub open spec fn wf(self) -> bool {
        &&& !(self.kind() is Unrecognized)
        &&& forall|role: ProfileRole| #[trigger] self.name(role) == catalog_file(self.kind(), role)
    }

    /// The shell whose files these are.
    pub fn shell(&self) -> (shell: ShellKind)
        ensures
            shell == self.kind(),
    {
        self.shell
    }

    /// The name of the file that plays `role`.
    pub fn file(&self, role: ProfileRole) -> (name: &'static str)
        ensures
            name@ == self.name(role),
    {
        match role {
            ProfileRole::Profile => self.profile,
            ProfileRole::Login => self.login,
            ProfileRole::ShellRc => self.shellrc,
        }
    }
}

/// The catalog: the entry of each recognized shell, and none for any other.
pub fn catalog(shell: ShellKind) -> (entry: Option<ShellProfileEntry>)
    ensures
        entry is None <==> shell is Unrecognized,
        entry matches Some(e) ==> e.kind() == shell && e.wf(),
{
    match shell {
        ShellKind::Zsh => Some(
            ShellProfileEntry {
                shell: ShellKind::Zsh,
                profile: ".zprofile",
                login: ".zlogin",
                shellrc: ".zshrc",
            },
        ),
        ShellKind::Bash => Some(
            ShellProfileEntry {
                shell: ShellKind::Bash,
                profile: ".bash_profile",
                login: ".bash_login",
                shellrc: ".bashrc",
            },
        ),
        ShellKind::Unrecognized => None,
    }
}

/// Every file name in the catalog is a bare name: it is not empty and
/// holds no `/`, so that it names a file directly in the home directory.
pub proof fn lemma_catalog_files_are_bare_names(shell: ShellKind, role: ProfileRole)
    requires
        !(shell is Unrecognized),
    ensures
        catalog_file(shell, role).len() > 0,
        !catalog_file(shell, role).contains('/'),
{
    reveal_strlit(".zprofile");
    reveal_strlit(".zlogin");
    reveal_strlit(".zshrc");
    reveal_strlit(".bash_profile");
    reveal_strlit(".bash_login");
    reveal_strlit(".bashrc");
    let name = catalog_file(shell, role);
    assert forall|i: int| 0 <= i < name.len() implies name[i] != '/' by {}
}

} // verus!
