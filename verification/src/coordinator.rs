//! The lifecycle coordinator: the state machine that decides, exactly once,
//! how the process ends.
//!
//! The coordinator does no waiting of its own. Its caller runs the worker,
//! the watcher, the heartbeat task and the interrupt listener, and tells the
//! coordinator what happened; the coordinator answers with what to do. The
//! first signal that reaches it while it is running decides the outcome, and
//! every later one is dropped.

use vstd::prelude::*;
use crate::condition::{ChangeCondition, ConditionState};
use crate::heartbeat::{
    advise,
    advisory_for,
    Advisory,
    HeartbeatEmitter,
    HeartbeatState,
    HeartbeatStep,
    Notification,
};
use crate::watch::{condition_after, handle_raw_event, reaction_to, WatchEvent, WatchReaction};

verus! {

/// Seconds to wait after a restart was decided, so that log lines in flight
/// are written out.
pub const FLUSH_DELAY_SECS: u64 = 1;

/// The exit code of a process that ends without a failure to report. A
/// restart request ends with it too: that is how the init system is asked to
/// start the process again.
pub const EXIT_OK: i32 = 0;

/// The exit code of a process that ends with a failure.
pub const EXIT_FAILURE: i32 = 1;

/// The coordinator's phases, in the order in which it goes through them.
#[derive(Clone, Copy, Debug, PartialEq, Eq, Structural)]
pub enum Phase {
    Starting,
    Running,
    Stopping,
    Terminal,
}

/// One arm of the race, as it completes.
#[derive(Debug, PartialEq, Eq)]
pub enum Signal<E> {
    /// The worker returned.
    WorkerCompleted(Result<(), E>),
    /// The waiter on the "changed" condition woke up.
    ChangeObserved,
    /// An interrupt arrived from outside.
    Interrupted,
}

/// How the race ended.
#[derive(Debug, PartialEq, Eq)]
pub enum Outcome<E> {
    WorkerCompleted(Result<(), E>),
    PluginChanged,
    Interrupted,
}

/// What the caller is to do about a signal.
#[derive(Clone, Copy, Debug, PartialEq, Eq, Structural)]
pub enum Decision {
    /// The signal decided nothing: it came before the race began, after it
    /// was over, or it claimed a change that nobody raised.
    Discarded,
    /// Stop; there is no failure to report.
    Shutdown,
    /// Stop so that the init system starts the process again: log the
    /// decision, wait for `flush_delay_secs` seconds, then go on to stop.
    Restart { flush_delay_secs: u64 },
    /// Stop and report the worker's error.
    Fail,
}

/// How the process ends.
#[derive(Debug, PartialEq, Eq)]
pub enum Termination<E> {
    /// A normal shutdown.
    Clean,
    /// A restart request.
    Restart,
    /// The worker's error, as the worker gave it.
    WorkerFailed(E),
    /// Startup was given up before the race began.
    StartupAborted,
}

impl<E> Outcome<E> {
    /// Whether the outcome carries an error of the worker.
    pub open spec fn is_failure(self) -> bool {
        self matches Outcome::WorkerCompleted(Err(_))
    }
}

impl<E> Termination<E> {
    /// The exit code: zero unless there is a failure to report.
    pub open spec fn code(self) -> i32 {
        match self {
            Termination::Clean => EXIT_OK,
            Termination::Restart => EXIT_OK,
            Termination::WorkerFailed(_) => EXIT_FAILURE,
            Termination::StartupAborted => EXIT_FAILURE,
        }
    }

    /// The exit code of the process.
    pub fn exit_code(&self) -> (code: i32)
        ensures
            code == self.code(),
    {
        match self {
            Termination::Clean => EXIT_OK,
            Termination::Restart => EXIT_OK,
            Termination::WorkerFailed(_) => EXIT_FAILURE,
            Termination::StartupAborted => EXIT_FAILURE,
        }
    }
}

/// The outcome that a signal stands for.
pub open spec fn outcome_of<E>(signal: Signal<E>) -> Outcome<E> {
    match signal {
        Signal::WorkerCompleted(result) => Outcome::WorkerCompleted(result),
        Signal::ChangeObserved => Outcome::PluginChanged,
        Signal::Interrupted => Outcome::Interrupted,
    }
}

/// What is to be done once the race has ended with `outcome`.
pub open spec fn decision_for<E>(outcome: Outcome<E>) -> Decision {
    match outcome {
        Outcome::WorkerCompleted(Ok(_)) => Decision::Shutdown,
        Outcome::WorkerCompleted(Err(_)) => Decision::Fail,
        Outcome::PluginChanged => Decision::Restart { flush_delay_secs: FLUSH_DELAY_SECS },
        Outcome::Interrupted => Decision::Shutdown,
    }
}

/// How a process ends whose race ended with `outcome`.
pub open spec fn termination_for<E>(outcome: Outcome<E>) -> Termination<E> {
    match outcome {
        Outcome::WorkerCompleted(Ok(_)) => Termination::Clean,
        Outcome::WorkerCompleted(Err(error)) => Termination::WorkerFailed(error),
        Outcome::PluginChanged => Termination::Restart,
        Outcome::Interrupted => Termination::Clean,
    }
}

/// The coordinator as a mathematical value.
pub struct CoordinatorState<E> {
    pub phase: Phase,
    /// The "changed" condition.
    pub condition: ConditionState,
    pub heartbeat: HeartbeatState,
    /// How the race ended, once it has.
    pub outcome: Option<Outcome<E>>,
    /// The restart flag.
    pub restart: bool,
    /// Startup was given up.
    pub aborted: bool,
}

/// One thing that can happen to a coordinator.
pub enum Step<E> {
    /// Startup is done; `ready_sent` says whether the ready notification
    /// went out.
    Start { ready_sent: bool },
    /// Startup failed.
    AbortStartup,
    /// The watcher's backend handed in a raw event.
    Watch(Result<WatchEvent, String>),
    /// An arm of the race completed.
    Resolve(Signal<E>),
    /// A watchdog notification went out, or failed.
    Heartbeat { sent: bool },
    /// The caller is ready to stop.
    Stop,
}

impl<E> CoordinatorState<E> {
    /// The state of a new coordinator.
    pub open spec fn initial() -> Self {
        CoordinatorState {
            phase: Phase::Starting,
            condition: ConditionState::Unset,
            heartbeat: HeartbeatState::Idle,
            outcome: None,
            restart: false,
            aborted: false,
        }
    }

    /// What holds of every state that a coordinator can be in.
    pub open spec fn wf(self) -> bool {
        &&& self.restart <==> self.outcome == Some(Outcome::<E>::PluginChanged)
        &&& self.outcome == Some(Outcome::<E>::PluginChanged) <==> self.condition
            == ConditionState::Observed
        &&& self.outcome is Some <==> (self.phase == Phase::Stopping || (self.phase
            == Phase::Terminal && !self.aborted))
        &&& self.aborted ==> self.phase == Phase::Terminal
        &&& self.heartbeat == match self.phase {
            Phase::Starting => HeartbeatState::Idle,
            Phase::Running => HeartbeatState::Active,
            Phase::Stopping => HeartbeatState::Active,
            Phase::Terminal => if self.aborted {
                HeartbeatState::Idle
            } else {
                HeartbeatState::Canceled
            },
        }
    }

    /// After startup: the race is on and the heartbeat beats. Has an effect
    /// on a starting coordinator only.
    pub open spec fn started(self) -> Self {
        if self.phase == Phase::Starting {
            CoordinatorState { phase: Phase::Running, heartbeat: self.heartbeat.started(), ..self }
        } else {
            self
        }
    }

    /// After startup was given up. Has an effect on a starting coordinator
    /// only.
    pub open spec fn startup_aborted(self) -> Self {
        if self.phase == Phase::Starting {
            CoordinatorState { phase: Phase::Terminal, aborted: true, ..self }
        } else {
            self
        }
    }

    /// After a raw event of the watcher's backend: only the condition can
    /// have changed.
    pub open spec fn watched(self, raw: Result<WatchEvent, String>) -> Self {
        CoordinatorState { condition: condition_after(self.condition, raw), ..self }
    }

    /// Whether `signal` decides the race: the race is on, and a claimed
    /// change was indeed raised and not yet seen.
    pub open spec fn decides(self, signal: Signal<E>) -> bool {
        &&& self.phase == Phase::Running
        &&& signal is ChangeObserved ==> self.condition == ConditionState::Pending
    }

    /// After an arm of the race completed. The signal that decides the race
    /// fixes the outcome and the restart flag; any other changes nothing.
    pub open spec fn resolved(self, signal: Signal<E>) -> Self {
        if self.decides(signal) {
            CoordinatorState {
                phase: Phase::Stopping,
                condition: if signal is ChangeObserved {
                    ConditionState::Observed
                } else {
                    self.condition
                },
                outcome: Some(outcome_of(signal)),
                restart: signal is ChangeObserved,
                ..self
            }
        } else {
            self
        }
    }

    /// The answer to a signal.
    pub open spec fn decision(self, signal: Signal<E>) -> Decision {
        if self.decides(signal) {
            decision_for(outcome_of(signal))
        } else {
            Decision::Discarded
        }
    }

    /// After stopping: the heartbeat is torn down and the coordinator is
    /// done. Has an effect on a stopping coordinator only.
    pub open spec fn stopped(self) -> Self {
        if self.phase == Phase::Stopping {
            CoordinatorState {
                phase: Phase::Terminal,
                heartbeat: HeartbeatState::Canceled,
                ..self
            }
        } else {
            self
        }
    }

    /// How the process ends, known once the coordinator is done.
    pub open spec fn termination(self) -> Option<Termination<E>> {
        if self.phase != Phase::Terminal {
            None
        } else if self.aborted {
            Some(Termination::StartupAborted)
        } else {
            match self.outcome {
                Some(outcome) => Some(termination_for(outcome)),
                None => None,
            }
        }
    }

    /// The exit code, known once the coordinator is done.
    pub open spec fn exit_code(self) -> Option<i32> {
        match self.termination() {
            Some(termination) => Some(termination.code()),
            None => None,
        }
    }

    /// The state after one step.
    pub open spec fn apply(self, step: Step<E>) -> Self {
        match step {
            Step::Start { .. } => self.started(),
            Step::AbortStartup => self.startup_aborted(),
            Step::Watch(raw) => self.watched(raw),
            Step::Resolve(signal) => self.resolved(signal),
            Step::Heartbeat { .. } => self,
            Step::Stop => self.stopped(),
        }
    }

    /// The state after a sequence of steps, first to last.
    pub open spec fn run(self, steps: Seq<Step<E>>) -> Self
        decreases steps.len(),
    {
        if steps.len() == 0 {
            self
        } else {
            self.run(steps.drop_last()).apply(steps.last())
        }
    }
}

/// The lifecycle coordinator.
///
/// It owns the "changed" condition, the heartbeat emitter's state, the
/// outcome of the race and the restart flag. Where several tasks report to
/// one coordinator, they keep it behind a lock: every method returns without
/// waiting.
#[derive(Debug)]
pub struct Coordinator<E> {
    phase: Phase,
    condition: ChangeCondition,
    heartbeat: HeartbeatEmitter,
    outcome: Option<Outcome<E>>,
    restart: bool,
    aborted: bool,
}

impl<E> View for Coordinator<E> {
    type V = CoordinatorState<E>;

    closed spec fn view(&self) -> CoordinatorState<E> {
        CoordinatorState {
            phase: self.phase,
            condition: self.condition@,
            heartbeat: self.heartbeat@,
            outcome: self.outcome,
            restart: self.restart,
            aborted: self.aborted,
        }
    }
}

impl<E> Coordinator<E> {
    /// A coordinator at the beginning of startup.
    pub fn new() -> (coordinator: Self)
        ensures
            coordinator@ == CoordinatorState::<E>::initial(),
            coordinator@.wf(),
    {
        Coordinator {
            phase: Phase::Starting,
            condition: ChangeCondition::new(),
            heartbeat: HeartbeatEmitter::new(),
            outcome: None,
            restart: false,
            aborted: false,
        }
    }

    /// The current phase.
    pub fn phase(&self) -> (phase: Phase)
        ensures
            phase == self@.phase,
    {
        self.phase
    }

    /// The restart flag.
    pub fn restart_requested(&self) -> (restart: bool)
        ensures
            restart == self@.restart,
    {
        self.restart
    }

    /// How the race ended, if it has.
    pub fn outcome(&self) -> (outcome: Option<&Outcome<E>>)
        ensures
            outcome is Some == self@.outcome is Some,
            outcome is Some ==> *outcome->0 == self@.outcome->0,
    {
        self.outcome.as_ref()
    }

    /// Whether the "changed" condition has been raised.
    pub fn change_raised(&self) -> (raised: bool)
        ensures
            raised == self@.condition.is_set(),
    {
        self.condition.is_set()
    }

    /// Ends startup and begins the race. `ready_sent` says whether the ready
    /// notification went out; if it did not, that is worth a warning and
    /// nothing else. Returns `None`, and changes nothing, on a coordinator
    /// that is not starting.
    pub fn start(&mut self, ready_sent: bool) -> (advisory: Option<Advisory>)
        requires
            old(self)@.wf(),
        ensures
            final(self)@ == old(self)@.started(),
            final(self)@.wf(),
            advisory == if old(self)@.phase == Phase::Starting {
                Some(advisory_for(Notification::Ready, ready_sent))
            } else {
                None
            },
    {
        match self.phase {
            Phase::Starting => {
                self.phase = Phase::Running;
                self.heartbeat.start();
                Some(advise(Notification::Ready, ready_sent))
            },
            _ => None,
        }
    }

    /// Gives up startup: the coordinator is done, and the process is to end
    /// with a failure. Returns `false`, and changes nothing, on a coordinator
    /// that is not starting.
    pub fn abort_startup(&mut self) -> (done: bool)
        requires
            old(self)@.wf(),
        ensures
            final(self)@ == old(self)@.startup_aborted(),
            final(self)@.wf(),
            done == (old(self)@.phase == Phase::Starting),
    {
        match self.phase {
            Phase::Starting => {
                self.phase = Phase::Terminal;
                self.aborted = true;
                true
            },
            _ => false,
        }
    }

    /// Takes one raw event of the watcher's backend and raises the "changed"
    /// condition if the event calls for it. Where the reaction is
    /// [`WatchReaction::Raised`], the caller wakes the waiter.
    pub fn on_watch_event(&mut self, raw: &Result<WatchEvent, String>) -> (reaction: WatchReaction)
        requires
            old(self)@.wf(),
        ensures
            final(self)@ == old(self)@.watched(*raw),
            final(self)@.wf(),
            reaction == reaction_to(old(self)@.condition, *raw),
    {
        handle_raw_event(&mut self.condition, raw)
    }

    /// Takes the completion of one arm of the race. The first signal to
    /// arrive while the race is on decides it; the answer to any other is
    /// [`Decision::Discarded`], and nothing changes.
    pub fn resolve(&mut self, signal: Signal<E>) -> (decision: Decision)
        requires
            old(self)@.wf(),
        ensures
            final(self)@ == old(self)@.resolved(signal),
            final(self)@.wf(),
            decision == old(self)@.decision(signal),
    {
        match self.phase {
            Phase::Running => {},
            _ => {
                return Decision::Discarded;
            },
        }
        let (outcome, decision) = match signal {
            Signal::WorkerCompleted(result) => {
                let decision = match &result {
                    Ok(_) => Decision::Shutdown,
                    Err(_) => Decision::Fail,
                };
                (Outcome::WorkerCompleted(result), decision)
            },
            Signal::ChangeObserved => {
                if !self.condition.observe() {
                    return Decision::Discarded;
                }
                self.restart = true;
                (Outcome::PluginChanged, Decision::Restart { flush_delay_secs: FLUSH_DELAY_SECS })
            },
            Signal::Interrupted => (Outcome::Interrupted, Decision::Shutdown),
        };
        self.outcome = Some(outcome);
        self.phase = Phase::Stopping;
        decision
    }

    /// What the heartbeat task does next: it beats while the race is on and
    /// until the coordinator has stopped.
    pub fn heartbeat_step(&self) -> (step: HeartbeatStep)
        ensures
            step == self@.heartbeat.step(),
    {
        self.heartbeat.next_step()
    }

    /// Judges the result of one watchdog notification. The coordinator is
    /// not changed by it.
    pub fn heartbeat_report(&self, sent: bool) -> (advisory: Advisory)
        ensures
            advisory == advisory_for(Notification::Watchdog, sent),
    {
        self.heartbeat.report(sent)
    }

    /// Stops: the heartbeat is torn down and the coordinator is done.
    /// Returns `true` if the caller is to cancel the heartbeat task now, and
    /// `false`, with nothing changed, on a coordinator that is not stopping.
    pub fn stop(&mut self) -> (cancel_heartbeat: bool)
        requires
            old(self)@.wf(),
        ensures
            final(self)@ == old(self)@.stopped(),
            final(self)@.wf(),
            cancel_heartbeat == (old(self)@.phase == Phase::Stopping),
    {
        match self.phase {
            Phase::Stopping => {
                self.heartbeat.cancel();
                self.phase = Phase::Terminal;
                true
            },
            _ => false,
        }
    }

    /// The exit code, once the coordinator is done.
    pub fn exit_code(&self) -> (code: Option<i32>)
        requires
            self@.wf(),
        ensures
            code == self@.exit_code(),
    {
        match self.phase {
            Phase::Terminal => {},
            _ => {
                return None;
            },
        }
        if self.aborted {
            return Some(EXIT_FAILURE);
        }
        match &self.outcome {
            Some(Outcome::WorkerCompleted(Err(_))) => Some(EXIT_FAILURE),
            Some(_) => Some(EXIT_OK),
            None => None,
        }
    }

    /// Gives up the coordinator for the way the process ends, with the
    /// worker's error in it where there is one. `None` while the coordinator
    /// is not done.
    pub fn into_termination(self) -> (termination: Option<Termination<E>>)
        requires
            self@.wf(),
        ensures
            termination == self@.termination(),
    {
        match self.phase {
            Phase::Terminal => {},
            _ => {
                return None;
            },
        }
        if self.aborted {
            return Some(Termination::StartupAborted);
        }
        match self.outcome {
            Some(Outcome::WorkerCompleted(Ok(_))) => Some(Termination::Clean),
            Some(Outcome::WorkerCompleted(Err(error))) => Some(Termination::WorkerFailed(error)),
            Some(Outcome::PluginChanged) => Some(Termination::Restart),
            Some(Outcome::Interrupted) => Some(Termination::Clean),
            None => None,
        }
    }
}

/// The place of a phase in the order in which a coordinator goes through
/// them.
pub open spec fn phase_rank(phase: Phase) -> nat {
    match phase {
        Phase::Starting => 0,
        Phase::Running => 1,
        Phase::Stopping => 2,
        Phase::Terminal => 3,
    }
}

/// No step takes a coordinator out of the states that it can be in, and no
/// step takes it back to an earlier phase.
pub proof fn lemma_step_keeps_wf<E>(state: CoordinatorState<E>, step: Step<E>)
    requires
        state.wf(),
    ensures
        state.apply(step).wf(),
        phase_rank(state.phase) <= phase_rank(state.apply(step).phase),
{
}

/// Whatever happens to a new coordinator, and in whatever order, the restart
/// flag is set exactly when the outcome is a plugin change.
pub proof fn lemma_restart_iff_plugin_changed<E>(steps: Seq<Step<E>>)
    ensures
        CoordinatorState::<E>::initial().run(steps).wf(),
        CoordinatorState::<E>::initial().run(steps).restart <==> CoordinatorState::<E>::initial().run(
            steps,
        ).outcome == Some(Outcome::<E>::PluginChanged),
    decreases steps.len(),
{
    if steps.len() > 0 {
        lemma_restart_iff_plugin_changed(steps.drop_last());
        lemma_step_keeps_wf(CoordinatorState::<E>::initial().run(steps.drop_last()), steps.last());
    }
}

/// There is one outcome: once the race has ended, nothing that happens
/// later changes the outcome or the restart flag.
pub proof fn lemma_outcome_is_final<E>(state: CoordinatorState<E>, steps: Seq<Step<E>>)
    requires
        state.wf(),
        state.outcome is Some,
    ensures
        state.run(steps).wf(),
        state.run(steps).outcome == state.outcome,
        state.run(steps).restart == state.restart,
    decreases steps.len(),
{
    if steps.len() > 0 {
        lemma_outcome_is_final(state, steps.drop_last());
        lemma_step_keeps_wf(state.run(steps.drop_last()), steps.last());
    }
}

/// A signal that arrives after the race has ended is dropped: the state
/// stays as it is and the answer is `Discarded`.
pub proof fn lemma_late_signal_discarded<E>(state: CoordinatorState<E>, signal: Signal<E>)
    requires
        state.wf(),
        state.outcome is Some,
    ensures
        state.resolved(signal) == state,
        state.decision(signal) == Decision::Discarded,
{
}

/// The result of a watchdog notification, sent or failed, leaves the
/// coordinator as it was: a heartbeat never decides anything.
pub proof fn lemma_heartbeat_never_decides<E>(state: CoordinatorState<E>, sent: bool)
    ensures
        state.apply(Step::Heartbeat { sent }) == state,
{
}

/// A failed ready notification does not keep the race from starting: the
/// state after startup is the same whether it went out or not.
pub proof fn lemma_ready_failure_not_fatal<E>(state: CoordinatorState<E>)
    requires
        state.phase == Phase::Starting,
    ensures
        state.apply(Step::Start { ready_sent: false }) == state.apply(
            Step::Start { ready_sent: true },
        ),
        state.apply(Step::Start { ready_sent: false }).phase == Phase::Running,
{
}

/// A coordinator that is done has an exit code, and it is zero unless the
/// worker failed or startup was given up. A restart request always ends
/// with zero.
pub proof fn lemma_exit_code<E>(state: CoordinatorState<E>)
    requires
        state.wf(),
        state.phase == Phase::Terminal,
    ensures
        state.exit_code() is Some,
        state.exit_code() == Some(EXIT_OK) <==> !state.aborted && !state.outcome->0.is_failure(),
        state.exit_code() != Some(EXIT_OK) ==> state.exit_code() == Some(EXIT_FAILURE),
        state.restart ==> state.exit_code() == Some(EXIT_OK) && state.termination() == Some(
            Termination::<E>::Restart,
        ),
{
}

/// A change of an artifact while the race is on, seen by the waiter before
/// any other arm completes, ends the race as a plugin change with the
/// restart flag set. Whatever the worker returns afterwards is dropped, and
/// the process ends with exit code zero without waiting for the worker.
pub proof fn lemma_plugin_change_wins<E>(
    state: CoordinatorState<E>,
    event: WatchEvent,
    later: Result<(), E>,
)
    requires
        state.wf(),
        state.phase == Phase::Running,
        event.triggers(),
    ensures
        ({
            let decided = state.watched(Ok(event)).resolved(Signal::ChangeObserved);
            &&& state.watched(Ok(event)).decision(Signal::ChangeObserved) == (Decision::Restart {
                flush_delay_secs: FLUSH_DELAY_SECS,
            })
            &&& decided.outcome == Some(Outcome::<E>::PluginChanged)
            &&& decided.restart
            &&& decided.resolved(Signal::WorkerCompleted(later)) == decided
            &&& decided.stopped().termination() == Some(Termination::<E>::Restart)
            &&& decided.stopped().exit_code() == Some(EXIT_OK)
        }),
{
}

/// A worker that fails while the race is on ends it with its error as the
/// outcome and the restart flag unset. A change that was raised but not yet
/// seen does not turn the failure into a restart: the process ends with the
/// worker's own error and a non-zero exit code.
pub proof fn lemma_worker_failure_propagates<E>(state: CoordinatorState<E>, error: E)
    requires
        state.wf(),
        state.phase == Phase::Running,
    ensures
        ({
            let decided = state.resolved(Signal::WorkerCompleted(Err(error)));
            &&& state.decision(Signal::WorkerCompleted(Err(error))) == Decision::Fail
            &&& decided.outcome == Some(Outcome::WorkerCompleted(Err(error)))
            &&& !decided.restart
            &&& decided.resolved(Signal::ChangeObserved) == decided
            &&& decided.stopped().termination() == Some(Termination::WorkerFailed(error))
            &&& decided.stopped().exit_code() == Some(EXIT_FAILURE)
            &&& EXIT_FAILURE != 0
        }),
{
}

/// An interrupt while the race is on ends it as interrupted, with the
/// restart flag unset and exit code zero. So does a worker that returns
/// without error, with its own outcome.
pub proof fn lemma_clean_shutdown<E>(state: CoordinatorState<E>)
    requires
        state.wf(),
        state.phase == Phase::Running,
    ensures
        ({
            let decided = state.resolved(Signal::Interrupted);
            &&& state.decision(Signal::Interrupted) == Decision::Shutdown
            &&& decided.outcome == Some(Outcome::<E>::Interrupted)
            &&& !decided.restart
            &&& decided.stopped().termination() == Some(Termination::<E>::Clean)
            &&& decided.stopped().exit_code() == Some(EXIT_OK)
        }),
        ({
            let decided = state.resolved(Signal::WorkerCompleted(Ok(())));
            &&& state.decision(Signal::WorkerCompleted(Ok(()))) == Decision::Shutdown
            &&& decided.outcome == Some(Outcome::<E>::WorkerCompleted(Ok(())))
            &&& !decided.restart
            &&& decided.stopped().termination() == Some(Termination::<E>::Clean)
            &&& decided.stopped().exit_code() == Some(EXIT_OK)
        }),
{
}

/// The outcome is a plugin change only if the "changed" condition was
/// raised: a waiter that wakes with nothing raised decides nothing.
pub proof fn lemma_no_restart_without_change<E>(state: CoordinatorState<E>)
    requires
        state.wf(),
        state.condition == ConditionState::Unset,
    ensures
        state.resolved(Signal::ChangeObserved) == state,
        state.decision(Signal::ChangeObserved) == Decision::Discarded,
        !state.restart,
{
}

/// From a new coordinator to the end: once startup is done, whether or not
/// the ready notification went out, one change of an artifact that the
/// waiter sees leads to a restart request with exit code zero.
pub proof fn lemma_restart_round_trip<E>(ready_sent: bool, event: WatchEvent)
    requires
        event.triggers(),
    ensures
        ({
            let done = CoordinatorState::<E>::initial().apply(Step::Start { ready_sent }).apply(
                Step::Watch(Ok(event)),
            ).apply(Step::Resolve(Signal::ChangeObserved)).apply(Step::Stop);
            &&& done.phase == Phase::Terminal
            &&& done.restart
            &&& done.outcome == Some(Outcome::<E>::PluginChanged)
            &&& done.exit_code() == Some(EXIT_OK)
        }),
{
}

} // verus!
