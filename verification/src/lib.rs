//! Persistent environment variables: the decisions behind appending
//! `export` lines to the startup file of the user's shell.
//!
//! The three operations, `set`, `append` and `check_or_set`, each start an
//! [`Operation`]: a machine that says what to do next (look at the home
//! directory, open a file, write, flush) and is told what came of it. The
//! caller reads the environment and touches the files; every decision is
//! taken here.

pub mod catalog;
pub mod error;
pub mod guard;
pub mod locator;
pub mod operation;
pub mod runs;
pub mod shell;

use crate::catalog::ProfileRole;
use crate::error::ProfileError;
use crate::guard::home_directory;
use crate::locator::{lemma_settles_at_first_to_open, Search};
use crate::operation::{Operation, OperationView};
use crate::runs::{lemma_complete_run, smooth_run};
use crate::shell::resolved;
use vstd::prelude::*;

verus! {

/// The line that sets `name` to `value`, behind an empty line.
pub open spec fn set_line(name: Seq<char>, value: Seq<char>) -> Seq<char> {
    "\nexport "@ + name + "="@ + value + "\n"@
}

/// The line that puts `value` in front of what `name` holds, with a colon
/// between the two, behind an empty line.
pub open spec fn append_line(name: Seq<char>, value: Seq<char>) -> Seq<char> {
    "\nexport "@ + name + "=\""@ + value + ":$"@ + name + "\"\n"@
}

/// Whether `op` is the start of an operation that is to write `line`, with
/// the shell identifier `shell`: it awaits the guard on the home directory,
/// or has failed because no home directory was found or its path is not
/// text.
pub open spec fn starts_with(op: OperationView, line: Seq<char>, shell: Option<Seq<char>>) -> bool {
    match op {
        OperationView::GuardHome { shell: s, line: l, .. } => s == shell && l == line,
        OperationView::Failed { reason } => reason == ProfileError::HomeNotFound || reason
            == ProfileError::InvalidPath,
        _ => false,
    }
}

/// Builds the line that sets `name` to `value`.
pub fn export_line(name: &str, value: &str) -> (line: String)
    ensures
        line@ == set_line(name@, value@),
{
    let mut line = "\nexport ".to_owned();
    line.append(name);
    line.append("=");
    line.append(value);
    line.append("\n");
    line
}

/// Builds the line that puts `value` in front of what `name` holds.
pub fn export_appended_line(name: &str, value: &str) -> (line: String)
    ensures
        line@ == append_line(name@, value@),
{
    let mut line = "\nexport ".to_owned();
    line.append(name);
    line.append("=\"");
    line.append(value);
    line.append(":$");
    line.append(name);
    line.append("\"\n");
    line
}

/// Starts the operation that sets `name` to `value` in the user's shell
/// profile, without looking whether the profile sets it already. `shell` is
/// the shell identifier found in the environment. The home directory is
/// looked up here.
pub fn set(name: &str, value: &str, shell: Option<String>) -> (op: Operation)
    ensures
        starts_with(op@, set_line(name@, value@), shell.deep_view()),
{
    Operation::begin(export_line(name, value), home_directory(), shell)
}

/// Starts the operation that puts `value` in front of what `name` holds, in
/// the user's shell profile. `shell` is the shell identifier found in the
/// environment. The home directory is looked up here.
pub fn append(name: &str, value: &str, shell: Option<String>) -> (op: Operation)
    ensures
        starts_with(op@, append_line(name@, value@), shell.deep_view()),
{
    Operation::begin(export_appended_line(name, value), home_directory(), shell)
}

/// Starts the operation that sets `name` to `value` unless the variable is
/// set in the environment of the process: `present` tells whether it is
/// there, whatever it holds. Where it is, the operation has succeeded
/// already and touches no file; where it is not, the operation is that of
/// `set`.
pub fn check_or_set(name: &str, value: &str, present: bool, shell: Option<String>) -> (op:
    Operation)
    ensures
        present ==> op@ == (OperationView::Done { file: None }),
        !present ==> starts_with(op@, set_line(name@, value@), shell.deep_view()),
{
    if present {
        Operation::nothing_to_do()
    } else {
        set(name, value, shell)
    }
}

/// Whether one of the three files opens, where `opens` tells which do.
pub open spec fn some_file_opens(opens: spec_fn(ProfileRole) -> bool) -> bool {
    opens(ProfileRole::Profile) || opens(ProfileRole::Login) || opens(ProfileRole::ShellRc)
}

/// Setting a variable twice writes its line twice. The operation never
/// looks at what the profile holds: run again with the same arguments, and
/// whichever of the files opens each time, it writes the same line again,
/// so that two lines stand where one would do.
pub proof fn lemma_set_twice_writes_two_lines(
    name: Seq<char>,
    value: Seq<char>,
    home: Seq<char>,
    shell: Option<Seq<char>>,
    first: spec_fn(ProfileRole) -> bool,
    second: spec_fn(ProfileRole) -> bool,
)
    requires
        resolved(shell) is Ok,
        some_file_opens(first),
        some_file_opens(second),
    ensures
        ({
            let line = set_line(name, value);
            let op = OperationView::GuardHome { home, shell, line };
            let first_time = op.written(smooth_run(home, shell, first));
            let second_time = op.written(smooth_run(home, shell, second));
            &&& first_time == line
            &&& second_time == line
            &&& first_time + second_time == line + line
            &&& (line + line).len() > line.len()
        }),
{
    let start = Search { home, kind: resolved(shell)->Ok_0, role: ProfileRole::Profile };
    lemma_settles_at_first_to_open(start, first);
    lemma_settles_at_first_to_open(start, second);
    assert(ProfileRole::Profile.rank() == 0 && ProfileRole::Login.rank() == 1
        && ProfileRole::ShellRc.rank() == 2);
    lemma_complete_run(home, shell, set_line(name, value), first);
    lemma_complete_run(home, shell, set_line(name, value), second);
    reveal_strlit("\nexport ");
}

/// A completed `append` has written exactly its line, once: an empty line,
/// then `export`, the name, and between double quotes the value, a colon
/// and the name behind a dollar sign, then the end of the line.
pub proof fn lemma_append_writes_exactly_its_line(
    name: Seq<char>,
    value: Seq<char>,
    home: Seq<char>,
    shell: Option<Seq<char>>,
    opens: spec_fn(ProfileRole) -> bool,
)
    requires
        resolved(shell) is Ok,
        some_file_opens(opens),
    ensures
        ({
            let line = append_line(name, value);
            let op = OperationView::GuardHome { home, shell, line };
            &&& op.written(smooth_run(home, shell, opens)) == line
            &&& line == seq!['\n', 'e', 'x', 'p', 'o', 'r', 't', ' '] + name + seq!['=', '"'] + value
                + seq![':', '$'] + name + seq!['"', '\n']
        }),
{
    let start = Search { home, kind: resolved(shell)->Ok_0, role: ProfileRole::Profile };
    lemma_settles_at_first_to_open(start, opens);
    assert(ProfileRole::Profile.rank() == 0 && ProfileRole::Login.rank() == 1
        && ProfileRole::ShellRc.rank() == 2);
    lemma_complete_run(home, shell, append_line(name, value), opens);
    reveal_strlit("\nexport ");
    reveal_strlit("=\"");
    reveal_strlit(":$");
    reveal_strlit("\"\n");
    assert("\nexport "@ =~= seq!['\n', 'e', 'x', 'p', 'o', 'r', 't', ' ']);
    assert("=\""@ =~= seq!['=', '"']);
    assert(":$"@ =~= seq![':', '$']);
    assert("\"\n"@ =~= seq!['"', '\n']);
}

} // verus!
