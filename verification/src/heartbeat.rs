//! The heartbeat emitter: when to tell the init system that the process is
//! alive, and what to make of a notification that could not be sent.
//!
//! Notifications are best effort. One that fails is logged as a warning and
//! nothing more: a missed heartbeat is for the supervisor's own timeout to
//! deal with.

use vstd::prelude::*;

verus! {

/// Seconds between two heartbeats.
pub const HEARTBEAT_INTERVAL_SECS: u64 = 30;

/// The two notifications that go out to the init system.
#[derive(Clone, Copy, Debug, PartialEq, Eq, Structural)]
pub enum Notification {
    /// Startup is complete. Sent once.
    Ready,
    /// The process is alive. Sent at every interval.
    Watchdog,
}

/// What to do about the result of a notification.
#[derive(Clone, Copy, Debug, PartialEq, Eq, Structural)]
pub enum Advisory {
    /// It went out: nothing to report.
    Quiet,
    /// It failed: log a warning that names the notification, and go on.
    Warn(Notification),
}

/// The advisory for a notification that went out (`sent`) or failed.
pub open spec fn advisory_for(notification: Notification, sent: bool) -> Advisory {
    if sent {
        Advisory::Quiet
    } else {
        Advisory::Warn(notification)
    }
}

/// Judges the result of a notification. No result is fatal.
pub fn advise(notification: Notification, sent: bool) -> (advisory: Advisory)
    ensures
        advisory == advisory_for(notification, sent),
{
    if sent {
        Advisory::Quiet
    } else {
        Advisory::Warn(notification)
    }
}

/// Where the emitter stands.
#[derive(Clone, Copy, Debug, PartialEq, Eq, Structural)]
pub enum HeartbeatState {
    /// Not started yet.
    Idle,
    /// Beating.
    Active,
    /// Torn down. There is no way back.
    Canceled,
}

/// What the emitter's task does next.
#[derive(Clone, Copy, Debug, PartialEq, Eq, Structural)]
pub enum HeartbeatStep {
    /// Sleep for `after_secs` seconds, then send the watchdog notification.
    Beat { after_secs: u64 },
    /// Send nothing more.
    Stop,
}

impl HeartbeatState {
    /// The state after a start: an idle emitter becomes active, a canceled
    /// one stays canceled.
    pub open spec fn started(self) -> HeartbeatState {
        if self == HeartbeatState::Idle {
            HeartbeatState::Active
        } else {
            self
        }
    }

    /// The next step in this state.
    pub open spec fn step(self) -> HeartbeatStep {
        if self == HeartbeatState::Active {
            HeartbeatStep::Beat { after_secs: HEARTBEAT_INTERVAL_SECS }
        } else {
            HeartbeatStep::Stop
        }
    }
}

/// The heartbeat emitter's state machine.
#[derive(Debug)]
pub struct HeartbeatEmitter {
    state: HeartbeatState,
}

impl View for HeartbeatEmitter {
    type V = HeartbeatState;

    closed spec fn view(&self) -> HeartbeatState {
        self.state
    }
}

impl HeartbeatEmitter {
    /// An emitter that has not started.
    pub fn new() -> (emitter: Self)
        ensures
            emitter@ == HeartbeatState::Idle,
    {
        HeartbeatEmitter { state: HeartbeatState::Idle }
    }

    /// Where the emitter stands.
    pub fn state(&self) -> (state: HeartbeatState)
        ensures
            state == self@,
    {
        self.state
    }

    /// Starts the emitter, unless it was canceled before.
    pub fn start(&mut self)
        ensures
            final(self)@ == old(self)@.started(),
    {
        match self.state {
            HeartbeatState::Idle => {
                self.state = HeartbeatState::Active;
            },
            _ => {},
        }
    }

    /// Tears the emitter down, whatever state it is in.
    pub fn cancel(&mut self)
        ensures
            final(self)@ == HeartbeatState::Canceled,
    {
        self.state = HeartbeatState::Canceled;
    }

    /// What the emitter's task does next: another beat after the interval
    /// while it is active, nothing more otherwise.
    pub fn next_step(&self) -> (step: HeartbeatStep)
        ensures
            step == self@.step(),
    {
        match self.state {
            HeartbeatState::Active => HeartbeatStep::Beat { after_secs: HEARTBEAT_INTERVAL_SECS },
            _ => HeartbeatStep::Stop,
        }
    }

    /// Judges the result of one watchdog notification. The emitter goes on
    /// either way.
    pub fn report(&self, sent: bool) -> (advisory: Advisory)
        ensures
            advisory == advisory_for(Notification::Watchdog, sent),
    {
        advise(Notification::Watchdog, sent)
    }
}

/// A canceled emitter stays canceled and sends nothing more.
pub proof fn lemma_cancel_is_final(state: HeartbeatState)
    requires
        state == HeartbeatState::Canceled,
    ensures
        state.started() == HeartbeatState::Canceled,
        state.step() == HeartbeatStep::Stop,
{
}

} // verus!
