//! The change watcher's policy: which filesystem events raise the "changed"
//! condition, and how a directory watch is set up.
//!
//! The watcher itself lives with the caller, who owns the operating system's
//! resources. It hands each raw event in as plain values and does what the
//! returned reaction says.
//!
//! A fault of the backend never stops the watch. The price is that events may
//! be missed without notice after such a fault: the watcher prefers to miss a
//! change over taking the process down.

use vstd::prelude::*;
use crate::artifact::{is_artifact, is_artifact_name};
use crate::condition::{ChangeCondition, ConditionState};

verus! {

/// What happened to the affected paths.
#[derive(Clone, Copy, Debug, PartialEq, Eq, Structural)]
pub enum EventKind {
    Created,
    Modified,
    Removed,
    /// Anything else, such as an access or a change of metadata only.
    Other,
}

/// One filesystem event.
///
/// `file_names` holds one entry for each affected path: the path's final
/// component, or `None` where the path has no final component or where it is
/// not valid Unicode.
#[derive(Clone, Debug, PartialEq, Eq)]
pub struct WatchEvent {
    pub kind: EventKind,
    pub file_names: Vec<Option<String>>,
}

/// What the watcher does with one raw event.
#[derive(Clone, Copy, Debug, PartialEq, Eq, Structural)]
pub enum WatchReaction {
    /// The event is of no interest.
    Ignored,
    /// An artifact changed, and this event raised the condition.
    Raised,
    /// An artifact changed, and the condition was set already.
    AlreadyRaised,
    /// The backend reported a fault. It is to be logged as a warning; the
    /// watch goes on.
    BackendFault,
}

impl EventKind {
    /// Creation, modification and removal are changes; everything else is
    /// not.
    pub open spec fn is_change(self) -> bool {
        self != EventKind::Other
    }

    /// Whether the kind is a creation, a modification or a removal.
    pub fn counts_as_change(self) -> (change: bool)
        ensures
            change == self.is_change(),
    {
        match self {
            EventKind::Created | EventKind::Modified | EventKind::Removed => true,
            EventKind::Other => false,
        }
    }
}

/// The filter accepts an affected path: it has a file name, and that name is
/// an artifact's.
pub open spec fn accepts(file_name: Option<String>) -> bool {
    file_name is Some && is_artifact_name(file_name->0@)
}

/// The filter accepts at least one of the affected paths.
pub open spec fn names_artifact(file_names: Seq<Option<String>>) -> bool {
    exists|i: int| 0 <= i < file_names.len() && accepts(#[trigger] file_names[i])
}

impl WatchEvent {
    /// The event calls for a restart: it is a creation, modification or
    /// removal, and at least one affected path is an artifact.
    pub open spec fn triggers(&self) -> bool {
        self.kind.is_change() && names_artifact(self.file_names@)
    }

    /// Whether at least one affected path is an artifact.
    pub fn touches_artifact(&self) -> (found: bool)
        ensures
            found == names_artifact(self.file_names@),
    {
        let mut i: usize = 0;
        while i < self.file_names.len()
            invariant
                i <= self.file_names.len(),
                forall|j: int| 0 <= j < i ==> !accepts(#[trigger] self.file_names@[j]),
            decreases self.file_names.len() - i,
        {
            match &self.file_names[i] {
                Some(name) => {
                    if is_artifact(name.as_str()) {
                        return true;
                    }
                },
                None => {},
            }
            i += 1;
        }
        false
    }

    /// Whether the event calls for a restart.
    pub fn triggers_restart(&self) -> (hit: bool)
        ensures
            hit == self.triggers(),
    {
        self.touches_artifact() && self.kind.counts_as_change()
    }
}

/// The reaction to a raw event, given the state of the condition before it.
pub open spec fn reaction_to(before: ConditionState, raw: Result<WatchEvent, String>)
    -> WatchReaction {
    match raw {
        Err(_) => WatchReaction::BackendFault,
        Ok(event) => if !event.triggers() {
            WatchReaction::Ignored
        } else if before.is_set() {
            WatchReaction::AlreadyRaised
        } else {
            WatchReaction::Raised
        },
    }
}

/// The state of the condition after a raw event.
pub open spec fn condition_after(before: ConditionState, raw: Result<WatchEvent, String>)
    -> ConditionState {
    match raw {
        Ok(event) => if event.triggers() {
            before.raised()
        } else {
            before
        },
        Err(_) => before,
    }
}

/// Handles one raw event of the backend: a filesystem event, or the text of
/// a fault. Raises `condition` if the event calls for a restart, and leaves
/// it alone otherwise.
pub fn handle_raw_event(condition: &mut ChangeCondition, raw: &Result<WatchEvent, String>) -> (reaction:
    WatchReaction)
    ensures
        reaction == reaction_to(old(condition)@, *raw),
        final(condition)@ == condition_after(old(condition)@, *raw),
{
    match raw {
        Err(_) => WatchReaction::BackendFault,
        Ok(event) => {
            if event.triggers_restart() {
                if condition.raise() {
                    WatchReaction::Raised
                } else {
                    WatchReaction::AlreadyRaised
                }
            } else {
                WatchReaction::Ignored
            }
        },
    }
}

/// Why setting up the watch failed. Each of these is fatal to startup.
#[derive(Clone, Copy, Debug, PartialEq, Eq, Structural)]
pub enum SetupError {
    /// The directory was absent and could not be created.
    CreateDirectory,
    /// The backend could not give a watcher.
    CreateWatcher,
    /// The watcher could not be registered on the directory.
    RegisterWatch,
}

/// How far the setup of the watch has come.
#[derive(Clone, Copy, Debug, PartialEq, Eq, Structural)]
pub enum SetupPhase {
    /// Waiting to learn whether the directory exists.
    Probing,
    CreatingDirectory,
    CreatingWatcher,
    Registering,
    /// The watch is in place.
    Watching,
    Failed(SetupError),
}

/// What the caller reports back after a step of setup.
#[derive(Clone, Copy, Debug, PartialEq, Eq, Structural)]
pub enum SetupEvent {
    Probed { exists: bool },
    DirectoryCreated { ok: bool },
    WatcherCreated { ok: bool },
    Registered { ok: bool },
}

/// What the caller is to do next.
#[derive(Clone, Copy, Debug, PartialEq, Eq, Structural)]
pub enum SetupAction {
    /// Create the directory and the directories above it.
    CreateDirectory,
    /// Ask the backend for a watcher.
    CreateWatcher,
    /// Register the watcher on the directory itself, not on what lies below
    /// it.
    RegisterNonRecursive,
    /// The watch is in place: keep the watcher alive until the process ends.
    KeepAlive,
    /// Give up startup with this error.
    Abort(SetupError),
    /// The report does not belong to the current phase: nothing to do.
    Nothing,
}

/// The phase that follows `phase` when `event` is reported.
pub open spec fn setup_next(phase: SetupPhase, event: SetupEvent) -> SetupPhase {
    match (phase, event) {
        (SetupPhase::Probing, SetupEvent::Probed { exists }) => if exists {
            SetupPhase::CreatingWatcher
        } else {
            SetupPhase::CreatingDirectory
        },
        (SetupPhase::CreatingDirectory, SetupEvent::DirectoryCreated { ok }) => if ok {
            SetupPhase::CreatingWatcher
        } else {
            SetupPhase::Failed(SetupError::CreateDirectory)
        },
        (SetupPhase::CreatingWatcher, SetupEvent::WatcherCreated { ok }) => if ok {
            SetupPhase::Registering
        } else {
            SetupPhase::Failed(SetupError::CreateWatcher)
        },
        (SetupPhase::Registering, SetupEvent::Registered { ok }) => if ok {
            SetupPhase::Watching
        } else {
            SetupPhase::Failed(SetupError::RegisterWatch)
        },
        _ => phase,
    }
}

/// Whether `event` is the report that `phase` waits for.
pub open spec fn setup_expects(phase: SetupPhase, event: SetupEvent) -> bool {
    match (phase, event) {
        (SetupPhase::Probing, SetupEvent::Probed { .. }) => true,
        (SetupPhase::CreatingDirectory, SetupEvent::DirectoryCreated { .. }) => true,
        (SetupPhase::CreatingWatcher, SetupEvent::WatcherCreated { .. }) => true,
        (SetupPhase::Registering, SetupEvent::Registered { .. }) => true,
        _ => false,
    }
}

/// What is to be done on entering `phase`.
pub open spec fn setup_entry_action(phase: SetupPhase) -> SetupAction {
    match phase {
        SetupPhase::Probing => SetupAction::Nothing,
        SetupPhase::CreatingDirectory => SetupAction::CreateDirectory,
        SetupPhase::CreatingWatcher => SetupAction::CreateWatcher,
        SetupPhase::Registering => SetupAction::RegisterNonRecursive,
        SetupPhase::Watching => SetupAction::KeepAlive,
        SetupPhase::Failed(error) => SetupAction::Abort(error),
    }
}

/// What the caller is to do after reporting `event` in `phase`.
pub open spec fn setup_action(phase: SetupPhase, event: SetupEvent) -> SetupAction {
    if setup_expects(phase, event) {
        setup_entry_action(setup_next(phase, event))
    } else {
        SetupAction::Nothing
    }
}

/// The phase reached from `phase` by a sequence of reports, first to last.
pub open spec fn setup_run(phase: SetupPhase, events: Seq<SetupEvent>) -> SetupPhase
    decreases events.len(),
{
    if events.len() == 0 {
        phase
    } else {
        setup_next(setup_run(phase, events.drop_last()), events.last())
    }
}

/// The setup of a directory watch, step by step.
///
/// The caller starts by finding out whether the directory exists, and reports
/// each result with [`WatcherSetup::advance`].
#[derive(Debug)]
pub struct WatcherSetup {
    phase: SetupPhase,
}

impl View for WatcherSetup {
    type V = SetupPhase;

    closed spec fn view(&self) -> SetupPhase {
        self.phase
    }
}

impl WatcherSetup {
    /// A setup that has not begun.
    pub fn new() -> (setup: Self)
        ensures
            setup@ == SetupPhase::Probing,
    {
        WatcherSetup { phase: SetupPhase::Probing }
    }

    /// The current phase.
    pub fn phase(&self) -> (phase: SetupPhase)
        ensures
            phase == self@,
    {
        self.phase
    }

    /// Takes the report of the step just done and says what to do next. A
    /// report that the current phase does not wait for changes nothing.
    pub fn advance(&mut self, event: SetupEvent) -> (action: SetupAction)
        ensures
            final(self)@ == setup_next(old(self)@, event),
            action == setup_action(old(self)@, event),
    {
        let next = match (self.phase, event) {
            (SetupPhase::Probing, SetupEvent::Probed { exists }) => {
                if exists {
                    SetupPhase::CreatingWatcher
                } else {
                    SetupPhase::CreatingDirectory
                }
            },
            (SetupPhase::CreatingDirectory, SetupEvent::DirectoryCreated { ok }) => {
                if ok {
                    SetupPhase::CreatingWatcher
                } else {
                    SetupPhase::Failed(SetupError::CreateDirectory)
                }
            },
            (SetupPhase::CreatingWatcher, SetupEvent::WatcherCreated { ok }) => {
                if ok {
                    SetupPhase::Registering
                } else {
                    SetupPhase::Failed(SetupError::CreateWatcher)
                }
            },
            (SetupPhase::Registering, SetupEvent::Registered { ok }) => {
                if ok {
                    SetupPhase::Watching
                } else {
                    SetupPhase::Failed(SetupError::RegisterWatch)
                }
            },
            _ => {
                return SetupAction::Nothing;
            },
        };
        self.phase = next;
        match next {
            SetupPhase::Probing => SetupAction::Nothing,
            SetupPhase::CreatingDirectory => SetupAction::CreateDirectory,
            SetupPhase::CreatingWatcher => SetupAction::CreateWatcher,
            SetupPhase::Registering => SetupAction::RegisterNonRecursive,
            SetupPhase::Watching => SetupAction::KeepAlive,
            SetupPhase::Failed(error) => SetupAction::Abort(error),
        }
    }
}

/// An event whose kind is no change, or whose paths are all rejected, leaves
/// the condition as it was, whatever that was.
pub proof fn lemma_uninteresting_event_ignored(before: ConditionState, event: WatchEvent)
    requires
        !event.kind.is_change() || !names_artifact(event.file_names@),
    ensures
        reaction_to(before, Ok(event)) == WatchReaction::Ignored,
        condition_after(before, Ok(event)) == before,
{
}

/// A fault of the backend changes nothing: the condition stays as it was, and
/// the events that follow are handled as if the fault had not happened.
pub proof fn lemma_fault_changes_nothing(
    before: ConditionState,
    fault: String,
    next: Result<WatchEvent, String>,
)
    ensures
        condition_after(before, Err(fault)) == before,
        reaction_to(condition_after(before, Err(fault)), next) == reaction_to(before, next),
{
}

/// Of any two events that call for a restart, the first raises the condition
/// and the second finds it set: the condition is set once.
pub proof fn lemma_second_trigger_is_noop(
    before: ConditionState,
    first: WatchEvent,
    second: WatchEvent,
)
    requires
        first.triggers(),
        second.triggers(),
    ensures
        condition_after(before, Ok(first)).is_set(),
        reaction_to(condition_after(before, Ok(first)), Ok(second))
            == WatchReaction::AlreadyRaised,
        condition_after(condition_after(before, Ok(first)), Ok(second)) == condition_after(
            before,
            Ok(first),
        ),
{
}

/// Once setup has failed or the watch is in place, no report changes the
/// phase.
pub proof fn lemma_setup_settles(phase: SetupPhase, events: Seq<SetupEvent>)
    requires
        phase is Failed || phase is Watching,
    ensures
        setup_run(phase, events) == phase,
    decreases events.len(),
{
    if events.len() > 0 {
        lemma_setup_settles(phase, events.drop_last());
    }
}

/// The directory is created only where it was found absent, and the watch is
/// registered only after the directory is known to be there and the backend
/// has given a watcher.
pub proof fn lemma_setup_order(phase: SetupPhase, event: SetupEvent)
    ensures
        setup_action(phase, event) == SetupAction::CreateDirectory ==> phase
            == SetupPhase::Probing && event == (SetupEvent::Probed { exists: false }),
        setup_action(phase, event) == SetupAction::RegisterNonRecursive ==> phase
            == SetupPhase::CreatingWatcher && event == (SetupEvent::WatcherCreated { ok: true }),
        setup_action(phase, event) == SetupAction::KeepAlive ==> phase == SetupPhase::Registering
            && event == (SetupEvent::Registered { ok: true }),
        setup_action(phase, event) is Abort ==> setup_next(phase, event) is Failed,
{
}

} // verus!
