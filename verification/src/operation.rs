//! One operation on the shell profile, from the guard on the home
//! directory to the flush of the written line, as a machine that is told
//! what each step gave and says what to do next. The machine decides; the
//! one who drives it looks at the directory, opens, writes and flushes.

use crate::error::ProfileError;
use crate::guard::{check_home, guarded, home_view, DirProbe};
use crate::locator::{find_profile, search_start, Locator, Search};
use vstd::prelude::*;

verus! {

/// What the driver reports back after it has carried out an action.
#[derive(Clone, Copy, Debug, PartialEq, Eq, Structural)]
pub enum Event {
    /// The home directory's metadata was looked up.
    Probed(DirProbe),
    /// The file was opened for appending, or could not be.
    Opened(bool),
    /// The line was written, or could not be.
    Written(bool),
    /// The file was flushed, or could not be.
    Flushed(bool),
}

/// What the driver is to do next.
#[derive(Debug, PartialEq, Eq)]
pub enum Action {
    /// Look up the metadata of the home directory at `path`.
    ProbeHome { path: String },
    /// Open the file at `path` so that what is written goes behind what it
    /// holds, and create it first, if it is missing, only where `create` is
    /// set.
    OpenAppend { path: String, create: bool },
    /// Write `text` to the file that was opened.
    Write { text: String },
    /// Flush the file that was written to.
    Flush,
    /// Nothing is left to do: the operation succeeded, on the file at
    /// `file` if it touched one.
    Finish { file: Option<String> },
    /// Nothing is left to do: the operation failed.
    Fail { reason: ProfileError },
}

/// An action with its texts as sequences of characters.
pub enum ActionView {
    ProbeHome { path: Seq<char> },
    OpenAppend { path: Seq<char>, create: bool },
    Write { text: Seq<char> },
    Flush,
    Finish { file: Option<Seq<char>> },
    Fail { reason: ProfileError },
}

impl View for Action {
    type V = ActionView;

    open spec fn view(&self) -> ActionView {
        match *self {
            Action::ProbeHome { path } => ActionView::ProbeHome { path: path@ },
            Action::OpenAppend { path, create } => ActionView::OpenAppend { path: path@, create },
            Action::Write { text } => ActionView::Write { text: text@ },
            Action::Flush => ActionView::Flush,
            Action::Finish { file } => ActionView::Finish { file: file.deep_view() },
            Action::Fail { reason } => ActionView::Fail { reason },
        }
    }
}

impl ActionView {
    /// Whether the action opens, writes or flushes a file.
    pub open spec fn touches_file(self) -> bool {
        self is OpenAppend || self is Write || self is Flush
    }
}

/// The states of an operation.
pub enum OperationView {
    /// The home directory is known; its metadata is awaited. The shell
    /// identifier is kept as it was found, unexamined.
    GuardHome { home: Seq<char>, shell: Option<Seq<char>>, line: Seq<char> },
    /// The search for the file is under way; the outcome of the attempt on
    /// the file of the search's role is awaited.
    Locate { search: Search, line: Seq<char> },
    /// The file at `path` is open; the outcome of writing the line is
    /// awaited.
    WriteLine { path: Seq<char>, line: Seq<char> },
    /// The line is written; the outcome of the flush is awaited.
    Flush { path: Seq<char> },
    /// The operation succeeded, on the file at `file` if it touched one.
    Done { file: Option<Seq<char>> },
    /// The operation failed.
    Failed { reason: ProfileError },
}

impl OperationView {
    /// What the driver is to do in this state.
    pub open spec fn action(self) -> ActionView {
        match self {
            OperationView::GuardHome { home, .. } => ActionView::ProbeHome { path: home },
            OperationView::Locate { search, .. } => ActionView::OpenAppend {
                path: search.path(),
                create: search.create(),
            },
            OperationView::WriteLine { line, .. } => ActionView::Write { text: line },
            OperationView::Flush { .. } => ActionView::Flush,
            OperationView::Done { file } => ActionView::Finish { file },
            OperationView::Failed { reason } => ActionView::Fail { reason },
        }
    }

    /// Whether nothing is left to do.
    pub open spec fn is_terminal(self) -> bool {
        self is Done || self is Failed
    }

    /// The state that follows this one on `event`. An event that does not
    /// answer the action of this state changes nothing.
    pub open spec fn after(self, event: Event) -> OperationView {
        match (self, event) {
            (OperationView::GuardHome { home, shell, line }, Event::Probed(probe)) => match guarded(
                probe,
            ) {
                Err(reason) => OperationView::Failed { reason },
                Ok(_) => match search_start(home, shell) {
                    Err(reason) => OperationView::Failed { reason },
                    Ok(search) => OperationView::Locate { search, line },
                },
            },
            (OperationView::Locate { search, line }, Event::Opened(opened)) => if opened {
                OperationView::WriteLine { path: search.path(), line }
            } else {
                match search.after_failure() {
                    Err(reason) => OperationView::Failed { reason },
                    Ok(next) => OperationView::Locate { search: next, line },
                }
            },
            (OperationView::WriteLine { path, .. }, Event::Written(written)) => if written {
                OperationView::Flush { path }
            } else {
                OperationView::Failed { reason: ProfileError::Io }
            },
            (OperationView::Flush { path }, Event::Flushed(flushed)) => if flushed {
                OperationView::Done { file: Some(path) }
            } else {
                OperationView::Failed { reason: ProfileError::Io }
            },
            _ => self,
        }
    }

    /// The state reached from this one by a sequence of events.
    pub open spec fn run(self, events: Seq<Event>) -> OperationView
        decreases events.len(),
    {
        if events.len() == 0 {
            self
        } else {
            self.run(events.drop_last()).after(events.last())
        }
    }

    /// The text that has been written once the events are behind: the text
    /// of every write that the driver was asked for and has reported as
    /// done.
    pub open spec fn written(self, events: Seq<Event>) -> Seq<char>
        decreases events.len(),
    {
        if events.len() == 0 {
            Seq::empty()
        } else {
            let so_far = self.written(events.drop_last());
            match (self.run(events.drop_last()).action(), events.last()) {
                (ActionView::Write { text }, Event::Written(true)) => so_far + text,
                _ => so_far,
            }
        }
    }
}

/// The state in which an operation that is to write `line` starts, given
/// the outcome of the lookup of the home directory.
pub open spec fn started(
    line: Seq<char>,
    home: Result<Seq<char>, ProfileError>,
    shell: Option<Seq<char>>,
) -> OperationView {
    match home {
        Ok(home) => OperationView::GuardHome { home, shell, line },
        Err(reason) => OperationView::Failed { reason },
    }
}

#[derive(Debug)]
enum State {
    GuardHome { home: String, shell: Option<String>, line: String },
    Locate { locator: Locator, line: String },
    WriteLine { path: String, line: String },
    Flush { path: String },
    Done { file: Option<String> },
    Failed { reason: ProfileError },
}

/// An operation in progress.
#[derive(Debug)]
pub struct Operation {
    state: State,
}

impl View for Operation {
    type V = OperationView;

    closed spec fn view(&self) -> OperationView {
        match self.state {
            State::GuardHome { home, shell, line } => OperationView::GuardHome {
                home: home@,
                shell: shell.deep_view(),
                line: line@,
            },
            State::Locate { locator, line } => OperationView::Locate {
                search: locator@,
                line: line@,
            },
            State::WriteLine { path, line } => OperationView::WriteLine {
                path: path@,
                line: line@,
            },
            State::Flush { path } => OperationView::Flush { path: path@ },
            State::Done { file } => OperationView::Done { file: file.deep_view() },
            State::Failed { reason } => OperationView::Failed { reason },
        }
    }
}

impl Operation {
    /// Starts an operation that is to write `line`, with the outcome of the
    /// lookup of the home directory and the shell identifier found in the
    /// environment. A failed lookup fails the operation at once.
    pub fn begin(line: String, home: Result<String, ProfileError>, shell: Option<String>) -> (op:
        Operation)
        ensures
            op@ == started(line@, home_view(home), shell.deep_view()),
    {
        match home {
            Ok(home) => Operation { state: State::GuardHome { home, shell, line } },
            Err(reason) => Operation { state: State::Failed { reason } },
        }
    }

    /// An operation that has succeeded without touching any file.
    pub(crate) fn nothing_to_do() -> (op: Operation)
        ensures
            op@ == (OperationView::Done { file: None }),
    {
        Operation { state: State::Done { file: None } }
    }

    /// What the driver is to do now.
    pub fn action(&self) -> (action: Action)
        ensures
            action@ == self@.action(),
    {
        match &self.state {
            State::GuardHome { home, .. } => Action::ProbeHome { path: home.clone() },
            State::Locate { locator, .. } => {
                let c = locator.candidate();
                Action::OpenAppend { path: c.path, create: c.create }
            },
            State::WriteLine { line, .. } => Action::Write { text: line.clone() },
            State::Flush { .. } => Action::Flush,
            State::Done { file } => match file {
                Some(path) => Action::Finish { file: Some(path.clone()) },
                None => Action::Finish { file: None },
            },
            State::Failed { reason } => Action::Fail { reason: *reason },
        }
    }

    /// Whether nothing is left to do.
    pub fn is_finished(&self) -> (finished: bool)
        ensures
            finished == self@.is_terminal(),
    {
        match &self.state {
            State::Done { .. } => true,
            State::Failed { .. } => true,
            _ => false,
        }
    }

    /// Takes the operation one step on: `event` is what the action of this
    /// state gave. An event that does not answer that action changes
    /// nothing.
    pub fn advance(self, event: Event) -> (next: Operation)
        ensures
            next@ == self@.after(event),
    {
        match self.state {
            State::GuardHome { home, shell, line } => match event {
                Event::Probed(probe) => match check_home(probe) {
                    Err(reason) => Operation { state: State::Failed { reason } },
                    Ok(_) => {
                        let ident = match &shell {
                            Some(s) => Some(s.as_str()),
                            None => None,
                        };
                        match find_profile(home, ident) {
                            Err(reason) => Operation { state: State::Failed { reason } },
                            Ok(locator) => Operation { state: State::Locate { locator, line } },
                        }
                    },
                },
                _ => Operation { state: State::GuardHome { home, shell, line } },
            },
            State::Locate { locator, line } => match event {
                Event::Opened(true) => {
                    let c = locator.candidate();
                    Operation { state: State::WriteLine { path: c.path, line } }
                },
                Event::Opened(false) => match locator.after_failure() {
                    Err(reason) => Operation { state: State::Failed { reason } },
                    Ok(next) => Operation { state: State::Locate { locator: next, line } },
                },
                _ => Operation { state: State::Locate { locator, line } },
            },
            State::WriteLine { path, line } => match event {
                Event::Written(true) => Operation { state: State::Flush { path } },
                Event::Written(false) => Operation {
                    state: State::Failed { reason: ProfileError::Io },
                },
                _ => Operation { state: State::WriteLine { path, line } },
            },
            State::Flush { path } => match event {
                Event::Flushed(true) => Operation { state: State::Done { file: Some(path) } },
                Event::Flushed(false) => Operation {
                    state: State::Failed { reason: ProfileError::Io },
                },
                _ => Operation { state: State::Flush { path } },
            },
            State::Done { file } => Operation { state: State::Done { file } },
            State::Failed { reason } => Operation { state: State::Failed { reason } },
        }
    }
}

} // verus!
