//! The search for the startup file that receives the write: the files of the
//! user's shell are tried in the order of their roles, and the first that
//! opens is taken.

use crate::catalog::{catalog, catalog_file, ProfileRole, ShellProfileEntry};
use crate::error::ProfileError;
use crate::shell::{resolve_shell, resolved, ShellKind};
use vstd::prelude::*;

verus! {

/// The path of a file directly in the home directory.
pub open spec fn candidate_path(home: Seq<char>, file: Seq<char>) -> Seq<char> {
    home.push('/') + file
}

/// A search at one of its steps: the home directory, the shell whose files
/// are tried, and the role whose file is tried now.
pub struct Search {
    pub home: Seq<char>,
    pub kind: ShellKind,
    pub role: ProfileRole,
}

impl Search {
    /// The path of the file that is tried now.
    pub open spec fn path(self) -> Seq<char> {
        candidate_path(self.home, catalog_file(self.kind, self.role))
    }

    /// Whether the file that is tried now may be created.
    pub open spec fn create(self) -> bool {
        self.role.may_create()
    }

    /// The search after the file that is tried now has failed to open: at
    /// the next role, or at its end, with nothing found.
    pub open spec fn after_failure(self) -> Result<Search, ProfileError> {
        match self.role.successor() {
            Some(next) => Ok(Search { role: next, ..self }),
            None => Err(ProfileError::NoProfileFound),
        }
    }

    /// Where the search ends when `opens` tells which roles' files open:
    /// at the first such role from this one on, or with nothing found.
    pub open spec fn settle(self, opens: spec_fn(ProfileRole) -> bool) -> Result<
        Search,
        ProfileError,
    >
        decreases 3 - self.role.rank(),
    {
        if opens(self.role) {
            Ok(self)
        } else {
            match self.role.successor() {
                Some(next) => Search { role: next, ..self }.settle(opens),
                None => Err(ProfileError::NoProfileFound),
            }
        }
    }
}

/// Where the search for the files of the shell named by `shell` starts: at
/// the profile, unless the shell is unsupported.
pub open spec fn search_start(home: Seq<char>, shell: Option<Seq<char>>) -> Result<
    Search,
    ProfileError,
> {
    match resolved(shell) {
        Ok(kind) => Ok(Search { home, kind, role: ProfileRole::Profile }),
        Err(e) => Err(e),
    }
}

/// One attempt of the search: the file to open for appending, and whether
/// to create it if it is missing.
#[derive(Debug, PartialEq, Eq)]
pub struct Candidate {
    pub role: ProfileRole,
    pub path: String,
    pub create: bool,
}

/// The state of a search in progress.
#[derive(Debug)]
pub struct Locator {
    home: String,
    entry: ShellProfileEntry,
    role: ProfileRole,
}

impl View for Locator {
    type V = Search;

    closed spec fn view(&self) -> Search {
        Search { home: self.home@, kind: self.entry.kind(), role: self.role }
    }
}

impl Locator {
    #[verifier::type_invariant]
    spec fn entry_is_from_catalog(self) -> bool {
        self.entry.wf()
    }

    /// The attempt to make now.
    pub fn candidate(&self) -> (c: Candidate)
        ensures
            c.role == self@.role,
            c.path@ == self@.path(),
            c.create == self@.create(),
            !(self@.kind is Unrecognized),
    {
        proof {
            use_type_invariant(self);
        }
        let mut path = self.home.clone();
        path.append("/");
        path.append(self.entry.file(self.role));
        proof {
            reveal_strlit("/");
            assert("/"@ =~= seq!['/']);
            assert(self.home@ + seq!['/'] =~= self.home@.push('/'));
        }
        Candidate { role: self.role, path, create: self.role.creatable() }
    }

    /// The search after the attempt made now has failed: the next attempt
    /// is due, or nothing was found.
    pub fn after_failure(self) -> (next: Result<Locator, ProfileError>)
        ensures
            match self@.after_failure() {
                Ok(search) => next matches Ok(l) && l@ == search,
                Err(e) => next == Err::<Locator, ProfileError>(e),
            },
    {
        proof {
            use_type_invariant(&self);
        }
        match self.role.next() {
            Some(role) => Ok(Locator { home: self.home, entry: self.entry, role }),
            None => Err(ProfileError::NoProfileFound),
        }
    }
}

/// Starts the search for the startup file of the shell that `shell` names,
/// in the home directory `home`. Fails with `UnsupportedShell`, before any
/// file is tried, where the shell is absent, empty or not recognized.
pub fn find_profile(home: String, shell: Option<&str>) -> (found: Result<Locator, ProfileError>)
    ensures
        match search_start(
            home@,
            match shell {
                Some(s) => Some(s@),
                None => None,
            },
        ) {
            Ok(search) => found matches Ok(l) && l@ == search,
            Err(e) => found == Err::<Locator, ProfileError>(e),
        },
{
    match resolve_shell(shell) {
        Err(e) => Err(e),
        Ok(kind) => match catalog(kind) {
            Some(entry) => Ok(Locator { home, entry, role: ProfileRole::first() }),
            // A recognized shell always has its entry.
            None => Err(ProfileError::UnsupportedShell),
        },
    }
}

/// A search settles at the first role, from where it stands, whose file
/// opens, and fails, with nothing found, only where none does.
pub proof fn lemma_settles_at_first_to_open(search: Search, opens: spec_fn(ProfileRole) -> bool)
    ensures
        match search.settle(opens) {
            Ok(end) => {
                &&& end.home == search.home
                &&& end.kind == search.kind
                &&& search.role.rank() <= end.role.rank()
                &&& opens(end.role)
                &&& forall|role: ProfileRole|
                    search.role.rank() <= #[trigger] role.rank() < end.role.rank() ==> !opens(role)
            },
            Err(reason) => {
                &&& reason == ProfileError::NoProfileFound
                &&& forall|role: ProfileRole|
                    search.role.rank() <= #[trigger] role.rank() ==> !opens(role)
            },
        },
    decreases 3 - search.role.rank(),
{
    if !opens(search.role) {
        match search.role.successor() {
            Some(next) => {
                lemma_settles_at_first_to_open(Search { role: next, ..search }, opens);
            },
            None => {},
        }
    }
}

/// Only the profile is ever created: the attempts on the two other files
/// ask for a file that is there already.
pub proof fn lemma_only_profile_is_created(search: Search)
    ensures
        search.create() <==> search.role == ProfileRole::Profile,
        search.after_failure() matches Ok(next) ==> !next.create(),
{
}

} // verus!
