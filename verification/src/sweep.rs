//! Sweeping away what earlier versions of the helper left behind.
//!
//! The sweep walks a plan one request at a time: the caller performs each
//! request against the service manager or the file system and reports back,
//! and the sweep answers with the next request. A probe of the service
//! manager may fail without consequence; a file that is there and cannot be
//! removed ends the sweep with an error.

use crate::command::{Invocation, InvocationView};
use crate::legacy::{plan_follows_table, ArtifactKind, LegacyTableView, Step, StepView, step_views};
use crate::text::copy_texts;
use vstd::prelude::*;
use vstd::string::*;

verus! {

/// The service manager's command-line tool.
pub const SERVICE_MANAGER: &'static str = "launchctl";

/// Why a sweep stopped early.
#[derive(Debug, PartialEq, Eq)]
pub enum CleanupError {
    /// What is at `path` could not be removed.
    FileRemoval { kind: ArtifactKind, path: String, os_error: String },
}

/// What a [`CleanupError`] holds, as plain text.
pub enum CleanupErrorView {
    FileRemoval { kind: ArtifactKind, path: Seq<char>, os_error: Seq<char> },
}

impl View for CleanupError {
    type V = CleanupErrorView;

    open spec fn view(&self) -> CleanupErrorView {
        match self {
            CleanupError::FileRemoval { kind, path, os_error } => CleanupErrorView::FileRemoval {
                kind: *kind,
                path: path@,
                os_error: os_error@,
            },
        }
    }
}

impl CleanupErrorView {
    /// The error in one text, for a caller that only reports it.
    pub open spec fn message(self) -> Seq<char> {
        match self {
            CleanupErrorView::FileRemoval { kind, path, os_error } => "Failed to remove legacy "@
                + kind.label() + seq![' '] + path + ": "@ + os_error,
        }
    }
}

impl CleanupError {
    /// The error in one text, for a caller that only reports it.
    pub fn message(&self) -> (message: String)
        ensures
            message@ == self@.message(),
    {
        match self {
            CleanupError::FileRemoval { kind, path, os_error } => {
                let mut message = String::from_str("Failed to remove legacy ");
                message.append(kind.name());
                message.push(' ');
                message.append(path.as_str());
                message.append(": ");
                message.append(os_error.as_str());
                message
            },
        }
    }
}

/// What the sweep asks of its caller.
#[derive(Debug, PartialEq, Eq)]
pub enum Action {
    /// Run this command and report that it returned.
    Run(Invocation),
    /// Report whether anything is at `path`.
    CheckExists { path: String },
    /// Remove the file at `path` and report how that went.
    RemoveFile { path: String },
    /// Remove the directory at `path` with all that it holds, and report how
    /// that went.
    RemoveDir { path: String },
    /// The sweep is over, with this result.
    Finish(Result<(), CleanupError>),
    /// The report did not answer what the sweep had asked; the sweep stays
    /// where it was.
    Unexpected,
}

/// What an [`Action`] holds, as plain text.
pub enum ActionView {
    Run(InvocationView),
    CheckExists { path: Seq<char> },
    RemoveFile { path: Seq<char> },
    RemoveDir { path: Seq<char> },
    Finish(Result<(), CleanupErrorView>),
    Unexpected,
}

impl View for Action {
    type V = ActionView;

    open spec fn view(&self) -> ActionView {
        match self {
            Action::Run(invocation) => ActionView::Run(invocation@),
            Action::CheckExists { path } => ActionView::CheckExists { path: path@ },
            Action::RemoveFile { path } => ActionView::RemoveFile { path: path@ },
            Action::RemoveDir { path } => ActionView::RemoveDir { path: path@ },
            Action::Finish(result) => ActionView::Finish(
                match result {
                    Ok(_) => Ok(()),
                    Err(e) => Err(e@),
                },
            ),
            Action::Unexpected => ActionView::Unexpected,
        }
    }
}

/// What the caller reports back to the sweep.
#[derive(Debug, PartialEq, Eq)]
pub enum Event {
    /// The command returned; `succeeded` says how.
    ProbeFinished { succeeded: bool },
    /// Whether anything is at the path asked about.
    Existence { found: bool },
    /// The path is gone.
    Removed,
    /// The path could not be removed.
    RemovalFailed { os_error: String },
}

/// What an [`Event`] holds, as plain text.
pub enum EventView {
    ProbeFinished { succeeded: bool },
    Existence { found: bool },
    Removed,
    RemovalFailed { os_error: Seq<char> },
}

impl View for Event {
    type V = EventView;

    open spec fn view(&self) -> EventView {
        match self {
            Event::ProbeFinished { succeeded } => EventView::ProbeFinished {
                succeeded: *succeeded,
            },
            Event::Existence { found } => EventView::Existence { found: *found },
            Event::Removed => EventView::Removed,
            Event::RemovalFailed { os_error } => EventView::RemovalFailed { os_error: os_error@ },
        }
    }
}

/// Where a sweep stands: which step of the plan it has asked about, and
/// what it has asked.
#[derive(Debug, Clone, Copy, PartialEq, Eq)]
pub enum SweepState {
    /// The probe of step `at` is running.
    Probing { at: usize },
    /// The sweep has asked whether the path of step `at` exists.
    Checking { at: usize },
    /// The sweep has asked to remove the path of step `at`.
    Removing { at: usize },
    /// The sweep is over.
    Finished,
}

/// The request that opens step `at` of `plan`: the probe itself, run
/// quietly, or the question whether the path to remove exists. Behind the
/// last step the sweep is over, with success.
pub open spec fn request(plan: Seq<StepView>, at: int) -> (SweepState, ActionView) {
    if 0 <= at < plan.len() {
        match plan[at] {
            StepView::Probe { args } => (
                SweepState::Probing { at: at as usize },
                ActionView::Run(
                    InvocationView { command: SERVICE_MANAGER@, args, verbose: false },
                ),
            ),
            StepView::Remove { kind, path } => (
                SweepState::Checking { at: at as usize },
                ActionView::CheckExists { path },
            ),
        }
    } else {
        (SweepState::Finished, ActionView::Finish(Ok(())))
    }
}

/// The request that removes what a step is about: a bundle is a directory,
/// anything else a file.
pub open spec fn removal(kind: ArtifactKind, path: Seq<char>) -> ActionView {
    match kind {
        ArtifactKind::Bundle => ActionView::RemoveDir { path },
        _ => ActionView::RemoveFile { path },
    }
}

/// One move of the sweep: the state and the request that follow when
/// `event` is reported in `state`.
///
/// A probe that returned is left behind, however it went. A path that is
/// not there is left behind; one that is there is to be removed. A path
/// that is gone is left behind; one that could not be removed ends the
/// sweep with an error that names it. Any other report, and any report in a
/// state that does not fit the plan, changes nothing.
pub open spec fn advanced(plan: Seq<StepView>, state: SweepState, event: EventView) -> (
    SweepState,
    ActionView,
) {
    let stay = (state, ActionView::Unexpected);
    match state {
        SweepState::Probing { at } => if at < plan.len() && plan[at as int] is Probe
            && event is ProbeFinished {
            request(plan, at + 1)
        } else {
            stay
        },
        SweepState::Checking { at } => if at < plan.len() {
            match (plan[at as int], event) {
                (StepView::Remove { kind, path }, EventView::Existence { found }) => if found {
                    (SweepState::Removing { at }, removal(kind, path))
                } else {
                    request(plan, at + 1)
                },
                _ => stay,
            }
        } else {
            stay
        },
        SweepState::Removing { at } => if at < plan.len() {
            match (plan[at as int], event) {
                (StepView::Remove { .. }, EventView::Removed) => request(plan, at + 1),
                (StepView::Remove { kind, path }, EventView::RemovalFailed { os_error }) => (
                    SweepState::Finished,
                    ActionView::Finish(Err(CleanupErrorView::FileRemoval { kind, path, os_error })),
                ),
                _ => stay,
            }
        } else {
            stay
        },
        SweepState::Finished => stay,
    }
}

/// The state and the request for step `at` of `plan`.
fn open_step(plan: &Vec<Step>, at: usize) -> (next: (SweepState, Action))
    ensures
        (next.0, next.1@) == request(step_views(plan@), at as int),
{
    if at < plan.len() {
        proof {
            assert(step_views(plan@)[at as int] == plan@[at as int]@);
        }
        match &plan[at] {
            Step::Probe { args } => {
                let invocation = Invocation {
                    command: String::from_str(SERVICE_MANAGER),
                    args: copy_texts(args),
                    verbose: false,
                };
                (SweepState::Probing { at }, Action::Run(invocation))
            },
            Step::Remove { kind, path } => (
                SweepState::Checking { at },
                Action::CheckExists { path: path.clone() },
            ),
        }
    } else {
        (SweepState::Finished, Action::Finish(Ok(())))
    }
}

impl SweepState {
    /// Starts a sweep over `plan`: the state and the first request.
    pub fn begin(plan: &Vec<Step>) -> (next: (SweepState, Action))
        ensures
            (next.0, next.1@) == request(step_views(plan@), 0),
    {
        open_step(plan, 0)
    }

    /// One move of the sweep over `plan`: the state and the request that
    /// follow when `event` is reported in this state.
    pub fn advance(self, plan: &Vec<Step>, event: Event) -> (next: (SweepState, Action))
        ensures
            (next.0, next.1@) == advanced(step_views(plan@), self, event@),
    {
        match self {
            SweepState::Probing { at } => {
                if at < plan.len() {
                    proof {
                        assert(step_views(plan@)[at as int] == plan@[at as int]@);
                    }
                    match (&plan[at], event) {
                        (Step::Probe { .. }, Event::ProbeFinished { .. }) => open_step(
                            plan,
                            at + 1,
                        ),
                        _ => (self, Action::Unexpected),
                    }
                } else {
                    (self, Action::Unexpected)
                }
            },
            SweepState::Checking { at } => {
                if at < plan.len() {
                    proof {
                        assert(step_views(plan@)[at as int] == plan@[at as int]@);
                    }
                    match (&plan[at], event) {
                        (Step::Remove { kind, path }, Event::Existence { found }) => {
                            if found {
                                let action = match kind {
                                    ArtifactKind::Bundle => Action::RemoveDir {
                                        path: path.clone(),
                                    },
                                    _ => Action::RemoveFile { path: path.clone() },
                                };
                                (SweepState::Removing { at }, action)
                            } else {
                                open_step(plan, at + 1)
                            }
                        },
                        _ => (self, Action::Unexpected),
                    }
                } else {
                    (self, Action::Unexpected)
                }
            },
            SweepState::Removing { at } => {
                if at < plan.len() {
                    proof {
                        assert(step_views(plan@)[at as int] == plan@[at as int]@);
                    }
                    match (&plan[at], event) {
                        (Step::Remove { .. }, Event::Removed) => open_step(plan, at + 1),
                        (Step::Remove { kind, path }, Event::RemovalFailed { os_error }) => (
                            SweepState::Finished,
                            Action::Finish(
                                Err(
                                    CleanupError::FileRemoval {
                                        kind: *kind,
                                        path: path.clone(),
                                        os_error,
                                    },
                                ),
                            ),
                        ),
                        _ => (self, Action::Unexpected),
                    }
                } else {
                    (self, Action::Unexpected)
                }
            },
            SweepState::Finished => (self, Action::Unexpected),
        }
    }
}

/// The state of a sweep over `plan` after `events` were reported in turn,
/// and every request that it made, the first one included.
pub open spec fn sweep(plan: Seq<StepView>, events: Seq<EventView>) -> (
    SweepState,
    Seq<ActionView>,
)
    decreases events.len(),
{
    if events.len() == 0 {
        (request(plan, 0).0, seq![request(plan, 0).1])
    } else {
        let (state, asked) = sweep(plan, events.drop_last());
        let (next, action) = advanced(plan, state, events.last());
        (next, asked.push(action))
    }
}

/// Whether `event` reports that `step` found nothing to remove: a probe
/// that returned, however it went, or a path that is not there.
pub open spec fn quiet_report(step: StepView, event: EventView) -> bool {
    match step {
        StepView::Probe { .. } => event is ProbeFinished,
        StepView::Remove { .. } => event == (EventView::Existence { found: false }),
    }
}

/// Whether the first `count` of `events` are quiet reports of the first
/// `count` steps of `plan`.
pub open spec fn quiet_upto(plan: Seq<StepView>, events: Seq<EventView>, count: int) -> bool {
    &&& 0 <= count <= plan.len()
    &&& count <= events.len()
    &&& forall|i: int| 0 <= i < count ==> quiet_report(plan[i], #[trigger] events[i])
}

/// The requests that open steps `0` to `count - 1` of `plan`, in order.
/// Behind the last step the request is the end of the sweep, with success.
pub open spec fn opening_requests(plan: Seq<StepView>, count: int) -> Seq<ActionView> {
    Seq::new(count as nat, |i: int| request(plan, i).1)
}

/// How a probe went does not matter to the sweep: it moves alike after one
/// that succeeded and one that failed.
pub proof fn probe_result_is_ignored(
    plan: Seq<StepView>,
    state: SweepState,
    first: bool,
    second: bool,
)
    ensures
        advanced(plan, state, EventView::ProbeFinished { succeeded: first }) == advanced(
            plan,
            state,
            EventView::ProbeFinished { succeeded: second },
        ),
{
}

/// While every step finds nothing to remove, the sweep makes the opening
/// request of each step in turn: after `count` quiet reports it has made
/// those of steps `0` to `count` and waits for the answer to the last.
pub proof fn quiet_steps_pass(plan: Seq<StepView>, events: Seq<EventView>, count: int)
    requires
        plan.len() <= usize::MAX,
        quiet_upto(plan, events, count),
    ensures
        sweep(plan, events.take(count)) == (
            request(plan, count).0,
            opening_requests(plan, count + 1),
        ),
    decreases count,
{
    let upto = events.take(count);
    if count == 0 {
        assert(opening_requests(plan, 1) =~= seq![request(plan, 0).1]);
    } else {
        quiet_steps_pass(plan, events, count - 1);
        assert(upto.drop_last() =~= events.take(count - 1));
        assert(upto.last() == events[count - 1]);
        assert(quiet_report(plan[count - 1], events[count - 1]));
        assert(opening_requests(plan, count).push(request(plan, count).1) =~= opening_requests(
            plan,
            count + 1,
        ));
    }
}

/// Where nothing is there to remove, the sweep makes the opening request of
/// every step of the plan once, in the plan's order, whether the probes
/// succeed or fail; it asks for no removal, and it ends with success.
pub proof fn quiet_sweep_succeeds(plan: Seq<StepView>, events: Seq<EventView>)
    requires
        plan.len() <= usize::MAX,
        events.len() == plan.len(),
        quiet_upto(plan, events, plan.len() as int),
    ensures
        sweep(plan, events) == (
            SweepState::Finished,
            opening_requests(plan, plan.len() as int).push(ActionView::Finish(Ok(()))),
        ),
        forall|i: int|
            0 <= i < plan.len() ==> #[trigger] sweep(plan, events).1[i] == match plan[i] {
                StepView::Probe { args } => ActionView::Run(
                    InvocationView { command: SERVICE_MANAGER@, args, verbose: false },
                ),
                StepView::Remove { path, .. } => ActionView::CheckExists { path },
            },
{
    quiet_steps_pass(plan, events, plan.len() as int);
    assert(events.take(plan.len() as int) =~= events);
    assert(opening_requests(plan, plan.len() as int + 1) =~= opening_requests(
        plan,
        plan.len() as int,
    ).push(ActionView::Finish(Ok(()))));
}

/// Two sweeps over one plan that both find nothing to remove make the same
/// requests and end alike, whatever their probes report: nothing is carried
/// over from one sweep to the next.
pub proof fn quiet_sweep_repeats(
    plan: Seq<StepView>,
    first: Seq<EventView>,
    second: Seq<EventView>,
)
    requires
        plan.len() <= usize::MAX,
        first.len() == plan.len(),
        second.len() == plan.len(),
        quiet_upto(plan, first, plan.len() as int),
        quiet_upto(plan, second, plan.len() as int),
    ensures
        sweep(plan, first) == sweep(plan, second),
        sweep(plan, first).1.last() == ActionView::Finish(Ok(())),
{
    quiet_sweep_succeeds(plan, first);
    quiet_sweep_succeeds(plan, second);
}

/// A path that is there and cannot be removed ends the sweep: after quiet
/// steps before it, the sweep asks whether the path exists, asks to remove
/// it, and finishes with the error that names this path and carries the
/// reason. No later step is opened.
pub proof fn failed_removal_ends_sweep(
    plan: Seq<StepView>,
    events: Seq<EventView>,
    at: int,
    os_error: Seq<char>,
)
    requires
        plan.len() <= usize::MAX,
        0 <= at < plan.len(),
        plan[at] is Remove,
        quiet_upto(plan, events, at),
        events.len() == at + 2,
        events[at] == (EventView::Existence { found: true }),
        events[at + 1] == (EventView::RemovalFailed { os_error }),
    ensures
        sweep(plan, events) == (
            SweepState::Finished,
            opening_requests(plan, at + 1).push(removal(plan[at]->kind, plan[at]->path)).push(
                ActionView::Finish(
                    Err(
                        CleanupErrorView::FileRemoval {
                            kind: plan[at]->kind,
                            path: plan[at]->path,
                            os_error,
                        },
                    ),
                ),
            ),
        ),
{
    quiet_steps_pass(plan, events, at);
    let asked = events.drop_last();
    assert(asked.drop_last() =~= events.take(at));
    assert(asked.last() == events[at]);
    assert(sweep(plan, asked).0 == SweepState::Removing { at: at as usize });
}

/// On a machine that holds nothing of the table, the sweep of the table's
/// plan deals with each service once, in the table's order: it has the
/// service manager stop the service, unload its manifest and disable it,
/// and asks whether the manifest exists. Then it asks about each helper
/// binary and about each bundle, and ends with success. Whether the probes
/// succeed or fail changes nothing.
pub proof fn quiet_sweep_follows_table(table: LegacyTableView, events: Seq<EventView>)
    requires
        table.plan().len() <= usize::MAX,
        events.len() == table.plan().len(),
        quiet_upto(table.plan(), events, table.plan().len() as int),
    ensures
        ({
            let asked = sweep(table.plan(), events).1;
            let services = table.items.len() as int;
            let binaries = table.binaries.len() as int;
            let bundles = table.bundles.len() as int;
            let quietly = |args: Seq<Seq<char>>|
                ActionView::Run(InvocationView { command: SERVICE_MANAGER@, args, verbose: false });
            &&& sweep(table.plan(), events).0 == SweepState::Finished
            &&& asked.len() == 4 * services + binaries + bundles + 1
            &&& forall|i: int|
                0 <= i < services ==> {
                    let item = #[trigger] table.items[i];
                    &&& asked[4 * i] == quietly(seq!["stop"@, item.identifier])
                    &&& asked[4 * i + 1] == quietly(
                        seq!["bootout"@, "system"@, item.manifest_path],
                    )
                    &&& asked[4 * i + 2] == quietly(seq!["disable"@, "system/"@ + item.identifier])
                    &&& asked[4 * i + 3] == (ActionView::CheckExists { path: item.manifest_path })
                }
            &&& forall|i: int|
                0 <= i < binaries ==> asked[4 * services + i] == (ActionView::CheckExists {
                    path: #[trigger] table.binaries[i],
                })
            &&& forall|i: int|
                0 <= i < bundles ==> asked[4 * services + binaries + i] == (
                ActionView::CheckExists { path: #[trigger] table.bundles[i] })
            &&& asked[4 * services + binaries + bundles] == ActionView::Finish(Ok(()))
        }),
{
    let plan = table.plan();
    let asked = sweep(plan, events).1;
    let services = table.items.len() as int;
    quiet_sweep_succeeds(plan, events);
    plan_follows_table(table);
    assert forall|i: int| 0 <= i < services implies {
        let item = #[trigger] table.items[i];
        &&& plan[4 * i] == item.steps()[0]
        &&& plan[4 * i + 1] == item.steps()[1]
        &&& plan[4 * i + 2] == item.steps()[2]
        &&& plan[4 * i + 3] == item.steps()[3]
        &&& asked[4 * i] == request(plan, 4 * i).1
        &&& asked[4 * i + 1] == request(plan, 4 * i + 1).1
        &&& asked[4 * i + 2] == request(plan, 4 * i + 2).1
        &&& asked[4 * i + 3] == request(plan, 4 * i + 3).1
    } by {
        let item = table.items[i];
        assert(plan[4 * i + 0] == item.steps()[0]);
        assert(plan[4 * i + 1] == item.steps()[1]);
        assert(plan[4 * i + 2] == item.steps()[2]);
        assert(plan[4 * i + 3] == item.steps()[3]);
    }
}

} // verus!
