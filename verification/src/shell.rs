//! Which shell the user runs, told from the name of its executable.

use crate::error::ProfileError;
use vstd::prelude::*;

verus! {

/// The shells whose startup files are known, and a value for every other
/// one. `Unrecognized` has no startup files and is never looked up.
#[derive(Clone, Copy, Debug, PartialEq, Eq, Structural)]
pub enum ShellKind {
    Zsh,
    Bash,
    Unrecognized,
}

/// What follows the last `/` of `s`; all of `s` where it holds none.
pub open spec fn final_segment(s: Seq<char>) -> Seq<char>
    decreases s.len(),
{
    if s.len() == 0 {
        s
    } else if s.last() == '/' {
        Seq::empty()
    } else {
        final_segment(s.drop_last()).push(s.last())
    }
}

/// The upper-case form that `str::to_uppercase` gives a text.
pub uninterp spec fn uppercase_of(s: Seq<char>) -> Seq<char>;

/// The shell that an upper-case executable name stands for.
pub open spec fn kind_of_upper(upper: Seq<char>) -> ShellKind {
    if upper == seq!['Z', 'S', 'H'] {
        ShellKind::Zsh
    } else if upper == seq!['B', 'A', 'S', 'H'] {
        ShellKind::Bash
    } else {
        ShellKind::Unrecognized
    }
}

/// The shell that an executable name stands for, whatever its case. The
/// empty name stands for none.
pub open spec fn kind_of_name(name: Seq<char>) -> ShellKind {
    if name.len() == 0 {
        ShellKind::Unrecognized
    } else {
        kind_of_upper(uppercase_of(name))
    }
}

/// The shell that a shell identifier, a path or a bare name, stands for.
pub open spec fn shell_kind(ident: Seq<char>) -> ShellKind {
    kind_of_name(final_segment(ident))
}

/// The outcome of resolving the shell identifier found in the environment,
/// if there was one.
pub open spec fn resolved(ident: Option<Seq<char>>) -> Result<ShellKind, ProfileError> {
    match ident {
        None => Err(ProfileError::UnsupportedShell),
        Some(s) => if shell_kind(s) is Unrecognized {
            Err(ProfileError::UnsupportedShell)
        } else {
            Ok(shell_kind(s))
        },
    }
}

/// `start` is where the final segment of `s` begins: at the front or right
/// behind a `/`, with no `/` from there on.
pub open spec fn begins_final_segment(s: Seq<char>, start: int) -> bool {
    &&& 0 <= start <= s.len()
    &&& start == 0 || s[start - 1] == '/'
    &&& forall|j: int| start <= j < s.len() ==> s[j] != '/'
}

/// The final segment is the part of the text from the place where it begins.
pub proof fn lemma_final_segment_from(s: Seq<char>, start: int)
    requires
        begins_final_segment(s, start),
    ensures
        final_segment(s) == s.subrange(start, s.len() as int),
    decreases s.len(),
{
    if s.len() == 0 {
        assert(s.subrange(start, s.len() as int) =~= s);
    } else if s.last() == '/' {
        assert(start == s.len());
        assert(s.subrange(start, s.len() as int) =~= Seq::<char>::empty());
    } else {
        let front = s.drop_last();
        assert(begins_final_segment(front, start));
        lemma_final_segment_from(front, start);
        assert(s.subrange(start, s.len() as int) =~= front.subrange(start, front.len() as int).push(
            s.last(),
        ));
    }
}

/// A shell identifier stands for the same shell whatever directories lead
/// to its last segment: only the name behind the last `/` counts.
pub proof fn lemma_path_prefix_is_irrelevant(prefix: Seq<char>, name: Seq<char>)
    requires
        !name.contains('/'),
    ensures
        final_segment(prefix.push('/') + name) == name,
        shell_kind(prefix.push('/') + name) == shell_kind(name),
        shell_kind(name) == kind_of_name(name),
{
    let path = prefix.push('/') + name;
    let start = prefix.len() as int + 1;
    assert forall|j: int| start <= j < path.len() implies path[j] != '/' by {
        assert(path[j] == name[j - start]);
        assert(name.contains(name[j - start]));
    }
    assert(path[start - 1] == '/');
    lemma_final_segment_from(path, start);
    assert(path.subrange(start, path.len() as int) =~= name);
    assert forall|j: int| 0 <= j < name.len() implies name[j] != '/' by {
        assert(name.contains(name[j]));
    }
    lemma_final_segment_from(name, 0);
    assert(name.subrange(0, name.len() as int) =~= name);
}

/// Two identifiers that differ only in the directories before the name
/// resolve alike.
pub proof fn lemma_same_name_same_shell(first: Seq<char>, second: Seq<char>, name: Seq<char>)
    requires
        !name.contains('/'),
    ensures
        resolved(Some(first.push('/') + name)) == resolved(Some(second.push('/') + name)),
        resolved(Some(first.push('/') + name)) == resolved(Some(name)),
{
    lemma_path_prefix_is_irrelevant(first, name);
    lemma_path_prefix_is_irrelevant(second, name);
}

/// No identifier, an empty one, and one that ends in `/` name no shell.
pub proof fn lemma_no_name_is_unsupported(ident: Seq<char>)
    requires
        ident.len() == 0 || ident.last() == '/',
    ensures
        resolved(Some(ident)) == Err::<ShellKind, ProfileError>(ProfileError::UnsupportedShell),
        resolved(None) == Err::<ShellKind, ProfileError>(ProfileError::UnsupportedShell),
{
}

/// `str::to_uppercase`: the result is the upper-case form of the argument,
/// which only that function defines: nothing more is claimed of it than that
/// equal texts have equal upper-case forms.
#[verifier::external_body]
fn to_uppercase(s: &str) -> (upper: String)
    ensures
        upper@ == uppercase_of(s@),
{
    s.to_uppercase()
}

/// Whether two texts hold the same characters.
fn same_text(a: &str, b: &str) -> (same: bool)
    ensures
        same == (a@ == b@),
{
    let x = a.to_owned();
    let y = b.to_owned();
    x == y
}

/// The part of a shell identifier behind its last `/`.
pub fn last_segment(ident: &str) -> (name: &str)
    ensures
        name@ == final_segment(ident@),
{
    let len = ident.unicode_len();
    let mut start: usize = 0;
    let mut seen: usize = 0;
    for c in iter: ident.chars()
        invariant
            iter.seq() == ident@,
            len == ident@.len(),
            seen == iter.index(),
            begins_final_segment(ident@.take(seen as int), start as int),
    {
        seen = seen + 1;
        if c == '/' {
            start = seen;
        }
    }
    proof {
        assert(ident@.take(seen as int) =~= ident@);
        lemma_final_segment_from(ident@, start as int);
    }
    ident.substring_char(start, len)
}

impl ShellKind {
    /// The shell named by a text that is in upper case already.
    pub fn from_upper(upper: &str) -> (kind: ShellKind)
        ensures
            kind == kind_of_upper(upper@),
    {
        proof {
            reveal_strlit("ZSH");
            reveal_strlit("BASH");
            assert("ZSH"@ =~= seq!['Z', 'S', 'H']);
            assert("BASH"@ =~= seq!['B', 'A', 'S', 'H']);
        }
        if same_text(upper, "ZSH") {
            ShellKind::Zsh
        } else if same_text(upper, "BASH") {
            ShellKind::Bash
        } else {
            ShellKind::Unrecognized
        }
    }

    /// The shell named by an executable name, compared without regard to
    /// case.
    pub fn from_name(name: &str) -> (kind: ShellKind)
        ensures
            kind == kind_of_name(name@),
    {
        if name.unicode_len() == 0 {
            ShellKind::Unrecognized
        } else {
            let upper = to_uppercase(name);
            ShellKind::from_upper(upper.as_str())
        }
    }

    /// The shell that a shell identifier stands for.
    pub fn identify(ident: &str) -> (kind: ShellKind)
        ensures
            kind == shell_kind(ident@),
    {
        ShellKind::from_name(last_segment(ident))
    }
}

/// Resolves the shell identifier found in the environment. Fails with
/// `UnsupportedShell` where there is none, where its last segment is empty,
/// and where that segment names no recognized shell.
pub fn resolve_shell(ident: Option<&str>) -> (kind: Result<ShellKind, ProfileError>)
    ensures
        kind == resolved(
            match ident {
                Some(s) => Some(s@),
                None => None,
            },
        ),
{
    match ident {
        None => Err(ProfileError::UnsupportedShell),
        Some(s) => {
            let kind = ShellKind::identify(s);
            match kind {
                ShellKind::Unrecognized => Err(ProfileError::UnsupportedShell),
                _ => Ok(kind),
            }
        },
    }
}

} // verus!
