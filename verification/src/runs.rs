//! What holds of every run of an operation, whatever the driver reports.

use crate::catalog::{catalog_file, ProfileRole};
use crate::error::ProfileError;
use crate::guard::DirProbe;
use crate::locator::{candidate_path, lemma_settles_at_first_to_open, Search};
use crate::operation::{ActionView, Event, OperationView};
use crate::shell::{resolved, ShellKind};
use vstd::prelude::*;

verus! {

/// The events that the attempts of a search give when `opens` tells which
/// roles' files open: a failure for each role that is tried in vain, then
/// the success, if there is one.
pub open spec fn attempt_events(search: Search, opens: spec_fn(ProfileRole) -> bool) -> Seq<Event>
    decreases 3 - search.role.rank(),
{
    if opens(search.role) {
        seq![Event::Opened(true)]
    } else {
        match search.role.successor() {
            Some(next) => seq![Event::Opened(false)] + attempt_events(
                Search { role: next, ..search },
                opens,
            ),
            None => seq![Event::Opened(false)],
        }
    }
}

/// The events of a run in which the home directory passes the guard, the
/// files of the shell open as `opens` tells, and the write and the flush
/// succeed.
pub open spec fn smooth_run(
    home: Seq<char>,
    shell: Option<Seq<char>>,
    opens: spec_fn(ProfileRole) -> bool,
) -> Seq<Event> {
    seq![Event::Probed(DirProbe::Found { readonly: false })] + attempt_events(
        Search { home, kind: resolved(shell)->Ok_0, role: ProfileRole::Profile },
        opens,
    ) + seq![Event::Written(true), Event::Flushed(true)]
}

/// Whether `path` is the path, in the home directory `home`, of one of the
/// startup files that the catalog lists for the shell that `shell` names.
pub open spec fn is_startup_file(path: Seq<char>, home: Seq<char>, shell: Option<Seq<char>>) -> bool {
    &&& resolved(shell) is Ok
    &&& exists|role: ProfileRole|
        path == candidate_path(home, #[trigger] catalog_file(resolved(shell)->Ok_0, role))
}

/// What holds of every state of an operation that started with the home
/// directory `home`, the shell identifier `shell` and the line `line`: it
/// searches only among the files of that shell, for that shell only if it
/// is supported, and it writes that line, to one of those files.
pub open spec fn keeps_to(
    state: OperationView,
    home: Seq<char>,
    shell: Option<Seq<char>>,
    line: Seq<char>,
) -> bool {
    match state {
        OperationView::GuardHome { home: h, shell: s, line: l } => h == home && s == shell && l
            == line,
        OperationView::Locate { search, line: l } => search.home == home && resolved(shell) == Ok::<
            ShellKind,
            ProfileError,
        >(search.kind) && l == line,
        OperationView::WriteLine { path, line: l } => is_startup_file(path, home, shell) && l
            == line,
        OperationView::Flush { path } => is_startup_file(path, home, shell),
        OperationView::Done { file } => file matches Some(path) && is_startup_file(
            path,
            home,
            shell,
        ),
        OperationView::Failed { .. } => true,
    }
}

/// Whether `event` reports on what `action` asked for.
pub open spec fn answers(event: Event, action: ActionView) -> bool {
    match (action, event) {
        (ActionView::ProbeHome { .. }, Event::Probed(_)) => true,
        (ActionView::OpenAppend { .. }, Event::Opened(_)) => true,
        (ActionView::Write { .. }, Event::Written(_)) => true,
        (ActionView::Flush, Event::Flushed(_)) => true,
        _ => false,
    }
}

/// The most answers that an operation in this state can still ask for.
pub open spec fn steps_left(state: OperationView) -> nat {
    match state {
        OperationView::GuardHome { .. } => 6,
        OperationView::Locate { search, .. } => (5 - search.role.rank()) as nat,
        OperationView::WriteLine { .. } => 2,
        OperationView::Flush { .. } => 1,
        OperationView::Done { .. } => 0,
        OperationView::Failed { .. } => 0,
    }
}

/// Every operation comes to an end: each answer to what it asked for
/// brings the end nearer, so that a driver that answers is done after six
/// answers at most; and a report that answers nothing changes nothing.
pub proof fn lemma_every_answer_brings_the_end_nearer(op: OperationView, event: Event)
    ensures
        answers(event, op.action()) ==> steps_left(op.after(event)) < steps_left(op),
        !answers(event, op.action()) ==> op.after(event) == op,
        steps_left(op) == 0 <==> op.is_terminal(),
        steps_left(op) <= 6,
{
}

/// Running through two sequences of events in turn is running through
/// both at once.
pub proof fn lemma_run_in_two_parts(op: OperationView, first: Seq<Event>, second: Seq<Event>)
    ensures
        op.run(first + second) == op.run(first).run(second),
    decreases second.len(),
{
    if second.len() == 0 {
        assert(first + second =~= first);
    } else {
        assert((first + second).drop_last() =~= first + second.drop_last());
        lemma_run_in_two_parts(op, first, second.drop_last());
    }
}

/// A run of one event is one step.
pub proof fn lemma_run_of_one(op: OperationView, event: Event)
    ensures
        op.run(seq![event]) == op.after(event),
{
    assert(seq![event].drop_last() =~= Seq::<Event>::empty());
    assert(op.run(Seq::<Event>::empty()) == op);
}

/// An operation that has succeeded or failed stays as it is, whatever it
/// is told afterwards: nothing follows a failure, and nothing a success.
pub proof fn lemma_finished_stays_finished(op: OperationView, events: Seq<Event>)
    requires
        op.is_terminal(),
    ensures
        op.run(events) == op,
    decreases events.len(),
{
    if events.len() > 0 {
        lemma_finished_stays_finished(op, events.drop_last());
    }
}

/// The guard comes before the shell is looked at: on a home directory that
/// is read-only the operation fails with `PermissionDenied`, and on one that
/// is not there with `ProfileDirNotFound`, whatever the shell identifier
/// holds, and stays failed.
pub proof fn lemma_guard_precedes_resolution(
    home: Seq<char>,
    shell: Option<Seq<char>>,
    line: Seq<char>,
    later: Seq<Event>,
)
    ensures
        ({
            let op = OperationView::GuardHome { home, shell, line };
            let read_only = op.after(Event::Probed(DirProbe::Found { readonly: true }));
            let missing = op.after(Event::Probed(DirProbe::NotFound));
            &&& read_only == (OperationView::Failed { reason: ProfileError::PermissionDenied })
            &&& missing == (OperationView::Failed { reason: ProfileError::ProfileDirNotFound })
            &&& read_only.run(later) == read_only
            &&& missing.run(later) == missing
        }),
{
    let op = OperationView::GuardHome { home, shell, line };
    lemma_finished_stays_finished(
        op.after(Event::Probed(DirProbe::Found { readonly: true })),
        later,
    );
    lemma_finished_stays_finished(op.after(Event::Probed(DirProbe::NotFound)), later);
}

/// With a shell identifier that is absent, empty or not recognized, no file
/// is ever opened, written or flushed, whatever the driver reports; and
/// once the home directory has passed the guard the operation has failed
/// with `UnsupportedShell`.
pub proof fn lemma_unsupported_shell_touches_no_file(
    home: Seq<char>,
    shell: Option<Seq<char>>,
    line: Seq<char>,
    events: Seq<Event>,
)
    requires
        resolved(shell) is Err,
    ensures
        ({
            let op = OperationView::GuardHome { home, shell, line };
            &&& !op.run(events).action().touches_file()
            &&& op.run(events) == op || op.run(events) is Failed
            &&& op.written(events) == Seq::<char>::empty()
            &&& op.after(Event::Probed(DirProbe::Found { readonly: false })) == (
            OperationView::Failed { reason: ProfileError::UnsupportedShell })
        }),
    decreases events.len(),
{
    if events.len() > 0 {
        lemma_unsupported_shell_touches_no_file(home, shell, line, events.drop_last());
    }
}

/// An operation that found nothing to do touches no file, whatever the
/// driver reports.
pub proof fn lemma_nothing_to_do_touches_no_file(events: Seq<Event>)
    ensures
        ({
            let op = OperationView::Done { file: None };
            &&& op.run(events) == op
            &&& op.run(events).action() == (ActionView::Finish { file: None })
            &&& !op.run(events).action().touches_file()
            &&& op.written(events) == Seq::<char>::empty()
        }),
    decreases events.len(),
{
    lemma_finished_stays_finished(OperationView::Done { file: None }, events);
    if events.len() > 0 {
        lemma_nothing_to_do_touches_no_file(events.drop_last());
    }
}

/// Nothing is written to a file that was not opened: the state in which
/// the line is written is entered only from the search, on the report that
/// the file of the search's role has opened, and with that file's path and
/// the line of the operation.
pub proof fn lemma_write_follows_open(op: OperationView, event: Event)
    requires
        !(op is WriteLine),
        op.after(event) is WriteLine,
    ensures
        op matches OperationView::Locate { search, line } && event == Event::Opened(true)
            && op.after(event) == (OperationView::WriteLine { path: search.path(), line }),
{
}

/// Every state that an operation reaches keeps to what it started with. So
/// a file is opened only for a supported shell and only if the catalog
/// lists it for that shell, it is created only if it is the profile, and
/// the text written is the line of the operation.
pub proof fn lemma_run_keeps_to_its_start(
    home: Seq<char>,
    shell: Option<Seq<char>>,
    line: Seq<char>,
    events: Seq<Event>,
)
    ensures
        ({
            let reached = (OperationView::GuardHome { home, shell, line }).run(events);
            &&& keeps_to(reached, home, shell, line)
            &&& reached.action() matches ActionView::OpenAppend { path, create } ==> {
                &&& is_startup_file(path, home, shell)
                &&& create ==> path == candidate_path(
                    home,
                    catalog_file(resolved(shell)->Ok_0, ProfileRole::Profile),
                )
            }
            &&& reached.action() matches ActionView::Write { text } ==> text == line
        }),
    decreases events.len(),
{
    let op = OperationView::GuardHome { home, shell, line };
    if events.len() > 0 {
        lemma_run_keeps_to_its_start(home, shell, line, events.drop_last());
        match op.run(events.drop_last()) {
            OperationView::Locate { search, .. } => {
                assert(is_startup_file(search.path(), home, shell));
            },
            _ => {},
        }
    }
    match op.run(events) {
        OperationView::Locate { search, .. } => {
            assert(is_startup_file(search.path(), home, shell));
        },
        _ => {},
    }
}

/// An operation writes its line once, or not at all: while it has not come
/// to flushing nothing is written, from then on its line is, and of a
/// failed operation only one that failed on a write or a flush may have
/// written anything.
pub proof fn lemma_writes_line_once_or_not_at_all(
    home: Seq<char>,
    shell: Option<Seq<char>>,
    line: Seq<char>,
    events: Seq<Event>,
)
    ensures
        ({
            let op = OperationView::GuardHome { home, shell, line };
            let reached = op.run(events);
            let written = op.written(events);
            &&& written == line || written == Seq::<char>::empty()
            &&& reached is Flush || reached is Done ==> written == line
            &&& reached is GuardHome || reached is Locate || reached is WriteLine ==> written
                == Seq::<char>::empty()
            &&& reached matches OperationView::Failed { reason } ==> reason == ProfileError::Io
                || written == Seq::<char>::empty()
        }),
    decreases events.len(),
{
    if events.len() > 0 {
        let earlier = events.drop_last();
        lemma_writes_line_once_or_not_at_all(home, shell, line, earlier);
        lemma_run_keeps_to_its_start(home, shell, line, earlier);
        assert(Seq::<char>::empty() + line =~= line);
    }
}

/// The search inside a run: after the events of its attempts the operation
/// is about to write to the file at which the search settles, or has failed
/// with nothing found.
pub proof fn lemma_attempts_settle(
    search: Search,
    line: Seq<char>,
    opens: spec_fn(ProfileRole) -> bool,
)
    ensures
        (OperationView::Locate { search, line }).run(attempt_events(search, opens)) == (
        match search.settle(opens) {
            Ok(end) => OperationView::WriteLine { path: end.path(), line },
            Err(reason) => OperationView::Failed { reason },
        }),
    decreases 3 - search.role.rank(),
{
    let op = OperationView::Locate { search, line };
    if opens(search.role) {
        lemma_run_of_one(op, Event::Opened(true));
    } else {
        lemma_run_of_one(op, Event::Opened(false));
        match search.role.successor() {
            Some(next) => {
                let rest = Search { role: next, ..search };
                lemma_run_in_two_parts(
                    op,
                    seq![Event::Opened(false)],
                    attempt_events(rest, opens),
                );
                lemma_attempts_settle(rest, line, opens);
            },
            None => {},
        }
    }
}

/// A whole run. With a home directory that passes the guard, a supported
/// shell, and a write and a flush that succeed, the operation ends on the
/// first file of the shell that opens, in the order profile, login, rc
/// file, having written its line and nothing else; where none opens it
/// fails with `NoProfileFound`, having written nothing. What a file holds
/// plays no part in it: an operation that is run again writes its line
/// again.
pub proof fn lemma_complete_run(
    home: Seq<char>,
    shell: Option<Seq<char>>,
    line: Seq<char>,
    opens: spec_fn(ProfileRole) -> bool,
)
    requires
        resolved(shell) is Ok,
    ensures
        ({
            let op = OperationView::GuardHome { home, shell, line };
            let start = Search { home, kind: resolved(shell)->Ok_0, role: ProfileRole::Profile };
            let guard = seq![Event::Probed(DirProbe::Found { readonly: false })];
            let attempts = attempt_events(start, opens);
            let events = smooth_run(home, shell, opens);
            match start.settle(opens) {
                Ok(end) => {
                    &&& op.run(guard + attempts).action() == (ActionView::Write { text: line })
                    &&& op.run(events) == (OperationView::Done { file: Some(end.path()) })
                    &&& op.written(events) == line
                },
                Err(reason) => {
                    &&& reason == ProfileError::NoProfileFound
                    &&& op.run(events) == (OperationView::Failed { reason })
                    &&& op.written(events) == Seq::<char>::empty()
                },
            }
        }),
{
    let op = OperationView::GuardHome { home, shell, line };
    let start = Search { home, kind: resolved(shell)->Ok_0, role: ProfileRole::Profile };
    let guard = seq![Event::Probed(DirProbe::Found { readonly: false })];
    let attempts = attempt_events(start, opens);
    let written = seq![Event::Written(true)];
    let flushed = seq![Event::Flushed(true)];
    let located = op.run(guard + attempts);
    lemma_run_of_one(op, Event::Probed(DirProbe::Found { readonly: false }));
    lemma_run_in_two_parts(op, guard, attempts);
    lemma_attempts_settle(start, line, opens);
    lemma_settles_at_first_to_open(start, opens);
    assert(smooth_run(home, shell, opens) =~= guard + attempts + (written + flushed));
    lemma_run_in_two_parts(op, guard + attempts, written + flushed);
    if located.is_terminal() {
        lemma_finished_stays_finished(located, written + flushed);
    } else {
        lemma_run_in_two_parts(located, written, flushed);
        lemma_run_of_one(located, Event::Written(true));
        lemma_run_of_one(located.after(Event::Written(true)), Event::Flushed(true));
    }
    lemma_writes_line_once_or_not_at_all(home, shell, line, smooth_run(home, shell, opens));
}

/// Where the profile opens, which it does whenever it is there or can be
/// created, the operation ends on it after that one attempt, whatever holds
/// of the two other files.
pub proof fn lemma_profile_is_taken_where_it_opens(
    home: Seq<char>,
    shell: Option<Seq<char>>,
    line: Seq<char>,
)
    requires
        resolved(shell) is Ok,
    ensures
        ({
            let op = OperationView::GuardHome { home, shell, line };
            let profile = candidate_path(
                home,
                catalog_file(resolved(shell)->Ok_0, ProfileRole::Profile),
            );
            let events = seq![
                Event::Probed(DirProbe::Found { readonly: false }),
                Event::Opened(true),
                Event::Written(true),
                Event::Flushed(true),
            ];
            &&& op.run(events.take(1)).action() == (ActionView::OpenAppend {
                path: profile,
                create: true,
            })
            &&& op.run(events) == (OperationView::Done { file: Some(profile) })
            &&& op.written(events) == line
        }),
{
    let op = OperationView::GuardHome { home, shell, line };
    let opens = |role: ProfileRole| true;
    let start = Search { home, kind: resolved(shell)->Ok_0, role: ProfileRole::Profile };
    let guard = seq![Event::Probed(DirProbe::Found { readonly: false })];
    let events = seq![
        Event::Probed(DirProbe::Found { readonly: false }),
        Event::Opened(true),
        Event::Written(true),
        Event::Flushed(true),
    ];
    lemma_complete_run(home, shell, line, opens);
    assert(attempt_events(start, opens) =~= seq![Event::Opened(true)]);
    assert(events =~= smooth_run(home, shell, opens));
    assert(events.take(1) =~= guard);
    lemma_run_of_one(op, Event::Probed(DirProbe::Found { readonly: false }));
}

/// Where neither the profile nor the login file opens and the rc file does,
/// the operation ends on the rc file, which it asked to open as it is:
/// after the profile, no file is ever asked to be created.
pub proof fn lemma_rc_file_is_taken_where_it_alone_opens(
    home: Seq<char>,
    shell: Option<Seq<char>>,
    line: Seq<char>,
)
    requires
        resolved(shell) is Ok,
    ensures
        ({
            let op = OperationView::GuardHome { home, shell, line };
            let rc_file = candidate_path(
                home,
                catalog_file(resolved(shell)->Ok_0, ProfileRole::ShellRc),
            );
            let events = seq![
                Event::Probed(DirProbe::Found { readonly: false }),
                Event::Opened(false),
                Event::Opened(false),
                Event::Opened(true),
                Event::Written(true),
                Event::Flushed(true),
            ];
            &&& op.run(events.take(3)).action() == (ActionView::OpenAppend {
                path: rc_file,
                create: false,
            })
            &&& op.run(events) == (OperationView::Done { file: Some(rc_file) })
            &&& op.written(events) == line
        }),
{
    let op = OperationView::GuardHome { home, shell, line };
    let opens = |role: ProfileRole| role == ProfileRole::ShellRc;
    let start = Search { home, kind: resolved(shell)->Ok_0, role: ProfileRole::Profile };
    let guard = seq![Event::Probed(DirProbe::Found { readonly: false })];
    let failures = seq![Event::Opened(false), Event::Opened(false)];
    let events = seq![
        Event::Probed(DirProbe::Found { readonly: false }),
        Event::Opened(false),
        Event::Opened(false),
        Event::Opened(true),
        Event::Written(true),
        Event::Flushed(true),
    ];
    reveal_with_fuel(attempt_events, 4);
    reveal_with_fuel(Search::settle, 4);
    lemma_complete_run(home, shell, line, opens);
    assert(attempt_events(start, opens) =~= failures.push(Event::Opened(true)));
    assert(events =~= smooth_run(home, shell, opens));
    assert(events.take(3) =~= guard + failures);
    lemma_run_in_two_parts(op, guard, failures);
    lemma_run_of_one(op, Event::Probed(DirProbe::Found { readonly: false }));
    assert(failures.drop_last() =~= seq![Event::Opened(false)]);
    lemma_run_of_one(op.run(guard), Event::Opened(false));
}

} // verus!
