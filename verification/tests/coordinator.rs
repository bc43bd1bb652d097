use anisystemd::coordinator::{
    Coordinator, Decision, Outcome, Phase, Signal, Termination, EXIT_FAILURE, EXIT_OK,
    FLUSH_DELAY_SECS,
};
use anisystemd::heartbeat::{Advisory, HeartbeatStep, Notification};
use anisystemd::watch::{EventKind, WatchEvent, WatchReaction};

fn change(kind: EventKind, name: &str) -> Result<WatchEvent, String> {
    Ok(WatchEvent { kind, file_names: vec![Some(name.to_string())] })
}

fn running() -> Coordinator<String> {
    let mut c = Coordinator::new();
    assert_eq!(c.start(true), Some(Advisory::Quiet));
    c
}

#[test]
fn new_coordinator_is_starting() {
    let c: Coordinator<String> = Coordinator::new();
    assert_eq!(c.phase(), Phase::Starting);
    assert!(!c.restart_requested());
    assert!(!c.change_raised());
    assert_eq!(c.outcome(), None);
    assert_eq!(c.exit_code(), None);
    assert_eq!(c.heartbeat_step(), HeartbeatStep::Stop);
}

#[test]
fn start_enters_running_and_starts_heartbeat() {
    let mut c: Coordinator<String> = Coordinator::new();
    assert_eq!(c.start(true), Some(Advisory::Quiet));
    assert_eq!(c.phase(), Phase::Running);
    assert_eq!(c.heartbeat_step(), HeartbeatStep::Beat { after_secs: 30 });
    assert_eq!(c.start(true), None);
    assert_eq!(c.phase(), Phase::Running);
}

#[test]
fn failed_ready_notification_is_not_fatal() {
    let mut c: Coordinator<String> = Coordinator::new();
    assert_eq!(c.start(false), Some(Advisory::Warn(Notification::Ready)));
    assert_eq!(c.phase(), Phase::Running);
    assert_eq!(c.outcome(), None);
    assert!(!c.restart_requested());
}

#[test]
fn create_event_on_plugin_gives_plugin_changed() {
    let mut c = running();
    assert_eq!(c.on_watch_event(&change(EventKind::Created, "x_plugin.so")), WatchReaction::Raised);
    assert!(c.change_raised());
    assert_eq!(
        c.resolve(Signal::ChangeObserved),
        Decision::Restart { flush_delay_secs: 1 }
    );
    assert_eq!(c.outcome(), Some(&Outcome::PluginChanged));
    assert!(c.restart_requested());
    assert_eq!(c.phase(), Phase::Stopping);
    assert_eq!(c.resolve(Signal::WorkerCompleted(Ok(()))), Decision::Discarded);
    assert_eq!(c.outcome(), Some(&Outcome::PluginChanged));
    assert!(c.restart_requested());
    assert!(c.stop());
    assert_eq!(c.exit_code(), Some(0));
    assert_eq!(c.into_termination(), Some(Termination::Restart));
}

#[test]
fn worker_error_before_any_change_fails_the_process() {
    let mut c = running();
    assert_eq!(c.resolve(Signal::WorkerCompleted(Err("boom".to_string()))), Decision::Fail);
    assert_eq!(c.outcome(), Some(&Outcome::WorkerCompleted(Err("boom".to_string()))));
    assert!(!c.restart_requested());
    assert!(c.stop());
    let code = c.exit_code();
    assert_eq!(code, Some(EXIT_FAILURE));
    assert_ne!(code, Some(0));
    assert_eq!(c.into_termination(), Some(Termination::WorkerFailed("boom".to_string())));
}

#[test]
fn interrupt_shuts_down_cleanly() {
    let mut c = running();
    assert_eq!(c.resolve(Signal::Interrupted), Decision::Shutdown);
    assert_eq!(c.outcome(), Some(&Outcome::Interrupted));
    assert!(!c.restart_requested());
    assert!(c.stop());
    assert_eq!(c.exit_code(), Some(0));
    assert_eq!(c.into_termination(), Some(Termination::Clean));
}

#[test]
fn worker_success_shuts_down_cleanly() {
    let mut c = running();
    assert_eq!(c.resolve(Signal::WorkerCompleted(Ok(()))), Decision::Shutdown);
    assert_eq!(c.outcome(), Some(&Outcome::WorkerCompleted(Ok(()))));
    assert!(!c.restart_requested());
    assert!(c.stop());
    assert_eq!(c.exit_code(), Some(EXIT_OK));
    assert_eq!(c.into_termination(), Some(Termination::Clean));
}

#[test]
fn second_raise_gives_no_second_outcome() {
    let mut c = running();
    assert_eq!(c.on_watch_event(&change(EventKind::Modified, "a_plugin.dll")), WatchReaction::Raised);
    assert_eq!(
        c.on_watch_event(&change(EventKind::Modified, "a_plugin.dll")),
        WatchReaction::AlreadyRaised
    );
    assert_eq!(
        c.resolve(Signal::ChangeObserved),
        Decision::Restart { flush_delay_secs: FLUSH_DELAY_SECS }
    );
    assert_eq!(
        c.on_watch_event(&change(EventKind::Removed, "b_service.so")),
        WatchReaction::AlreadyRaised
    );
    assert_eq!(c.resolve(Signal::ChangeObserved), Decision::Discarded);
    assert_eq!(c.outcome(), Some(&Outcome::PluginChanged));
    assert!(c.restart_requested());
    assert_eq!(c.phase(), Phase::Stopping);
}

#[test]
fn end_to_end_service_change_exits_zero() {
    let mut c: Coordinator<String> = Coordinator::new();
    assert_eq!(c.start(true), Some(Advisory::Quiet));
    assert_eq!(c.on_watch_event(&change(EventKind::Created, "x_service.dll")), WatchReaction::Raised);
    let decision = c.resolve(Signal::ChangeObserved);
    assert_eq!(decision, Decision::Restart { flush_delay_secs: 1 });
    assert!(c.restart_requested());
    assert!(c.stop());
    assert_eq!(c.phase(), Phase::Terminal);
    assert!(c.restart_requested());
    assert_eq!(c.heartbeat_step(), HeartbeatStep::Stop);
    assert_eq!(c.exit_code(), Some(0));
}

#[test]
fn worker_error_overrides_pending_change() {
    let mut c = running();
    assert_eq!(c.on_watch_event(&change(EventKind::Created, "x_plugin.so")), WatchReaction::Raised);
    assert_eq!(c.resolve(Signal::WorkerCompleted(Err("fatal".to_string()))), Decision::Fail);
    assert_eq!(c.resolve(Signal::ChangeObserved), Decision::Discarded);
    assert!(!c.restart_requested());
    assert!(c.stop());
    assert_eq!(c.exit_code(), Some(1));
    assert_eq!(c.into_termination(), Some(Termination::WorkerFailed("fatal".to_string())));
}

#[test]
fn interrupt_wins_over_pending_change_when_first() {
    let mut c = running();
    c.on_watch_event(&change(EventKind::Created, "x_plugin.so"));
    assert_eq!(c.resolve(Signal::Interrupted), Decision::Shutdown);
    assert_eq!(c.resolve(Signal::ChangeObserved), Decision::Discarded);
    assert_eq!(c.outcome(), Some(&Outcome::Interrupted));
    assert!(!c.restart_requested());
}

#[test]
fn change_claim_without_raise_is_discarded() {
    let mut c = running();
    assert_eq!(c.resolve(Signal::ChangeObserved), Decision::Discarded);
    assert_eq!(c.phase(), Phase::Running);
    assert_eq!(c.outcome(), None);
    assert!(!c.restart_requested());
    assert_eq!(c.on_watch_event(&change(EventKind::Other, "x_plugin.so")), WatchReaction::Ignored);
    assert_eq!(c.on_watch_event(&change(EventKind::Created, "x.txt")), WatchReaction::Ignored);
    assert_eq!(c.resolve(Signal::ChangeObserved), Decision::Discarded);
    assert_eq!(c.phase(), Phase::Running);
}

#[test]
fn signals_before_the_race_are_discarded() {
    let mut c: Coordinator<String> = Coordinator::new();
    assert_eq!(c.resolve(Signal::Interrupted), Decision::Discarded);
    assert_eq!(c.resolve(Signal::WorkerCompleted(Ok(()))), Decision::Discarded);
    assert_eq!(c.phase(), Phase::Starting);
    assert_eq!(c.outcome(), None);
}

#[test]
fn change_raised_during_startup_is_kept() {
    let mut c: Coordinator<String> = Coordinator::new();
    assert_eq!(c.on_watch_event(&change(EventKind::Created, "x_plugin.so")), WatchReaction::Raised);
    assert_eq!(c.resolve(Signal::ChangeObserved), Decision::Discarded);
    assert!(c.change_raised());
    c.start(true);
    assert_eq!(c.resolve(Signal::ChangeObserved), Decision::Restart { flush_delay_secs: 1 });
    assert!(c.restart_requested());
}

#[test]
fn signals_after_the_race_are_discarded() {
    let mut c = running();
    assert_eq!(c.resolve(Signal::Interrupted), Decision::Shutdown);
    assert_eq!(c.resolve(Signal::WorkerCompleted(Err("late".to_string()))), Decision::Discarded);
    assert_eq!(c.resolve(Signal::Interrupted), Decision::Discarded);
    assert!(c.stop());
    assert_eq!(c.resolve(Signal::WorkerCompleted(Err("later".to_string()))), Decision::Discarded);
    assert_eq!(c.outcome(), Some(&Outcome::Interrupted));
    assert_eq!(c.exit_code(), Some(0));
}

#[test]
fn heartbeat_failures_change_nothing() {
    let mut c = running();
    for _ in 0..10 {
        assert_eq!(c.heartbeat_report(false), Advisory::Warn(Notification::Watchdog));
    }
    assert_eq!(c.heartbeat_report(true), Advisory::Quiet);
    assert_eq!(c.phase(), Phase::Running);
    assert_eq!(c.outcome(), None);
    assert!(!c.restart_requested());
    assert_eq!(c.heartbeat_step(), HeartbeatStep::Beat { after_secs: 30 });
    assert_eq!(c.resolve(Signal::Interrupted), Decision::Shutdown);
    assert_eq!(c.heartbeat_report(false), Advisory::Warn(Notification::Watchdog));
    assert_eq!(c.outcome(), Some(&Outcome::Interrupted));
}

#[test]
fn heartbeat_beats_until_stopped() {
    let mut c = running();
    assert_eq!(c.heartbeat_step(), HeartbeatStep::Beat { after_secs: 30 });
    c.resolve(Signal::Interrupted);
    assert_eq!(c.heartbeat_step(), HeartbeatStep::Beat { after_secs: 30 });
    assert!(c.stop());
    assert_eq!(c.heartbeat_step(), HeartbeatStep::Stop);
}

#[test]
fn stop_has_effect_only_when_stopping() {
    let mut c: Coordinator<String> = Coordinator::new();
    assert!(!c.stop());
    assert_eq!(c.phase(), Phase::Starting);
    c.start(true);
    assert!(!c.stop());
    assert_eq!(c.phase(), Phase::Running);
    c.resolve(Signal::Interrupted);
    assert!(c.stop());
    assert_eq!(c.phase(), Phase::Terminal);
    assert!(!c.stop());
    assert_eq!(c.phase(), Phase::Terminal);
}

#[test]
fn aborted_startup_ends_in_failure() {
    let mut c: Coordinator<String> = Coordinator::new();
    assert!(c.abort_startup());
    assert_eq!(c.phase(), Phase::Terminal);
    assert_eq!(c.start(true), None);
    assert_eq!(c.resolve(Signal::Interrupted), Decision::Discarded);
    assert_eq!(c.outcome(), None);
    assert!(!c.restart_requested());
    assert_eq!(c.exit_code(), Some(EXIT_FAILURE));
    assert_eq!(c.heartbeat_step(), HeartbeatStep::Stop);
    assert_eq!(c.into_termination(), Some(Termination::StartupAborted));
}

#[test]
fn abort_after_start_has_no_effect() {
    let mut c = running();
    assert!(!c.abort_startup());
    assert_eq!(c.phase(), Phase::Running);
}

#[test]
fn no_termination_before_the_end() {
    let c: Coordinator<String> = Coordinator::new();
    assert_eq!(c.into_termination(), None);
    let c = running();
    assert_eq!(c.exit_code(), None);
    assert_eq!(c.into_termination(), None);
    let mut c = running();
    c.resolve(Signal::Interrupted);
    assert_eq!(c.exit_code(), None);
    assert_eq!(c.into_termination(), None);
}

#[test]
fn termination_exit_codes() {
    assert_eq!(Termination::<String>::Clean.exit_code(), 0);
    assert_eq!(Termination::<String>::Restart.exit_code(), 0);
    assert_eq!(Termination::WorkerFailed("e".to_string()).exit_code(), 1);
    assert_eq!(Termination::<String>::StartupAborted.exit_code(), 1);
    assert_eq!(EXIT_OK, 0);
    assert_ne!(EXIT_FAILURE, 0);
}

#[test]
fn restart_flag_follows_outcome_on_every_path() {
    let signals: [fn() -> Signal<String>; 4] = [
        || Signal::WorkerCompleted(Ok(())),
        || Signal::WorkerCompleted(Err("x".to_string())),
        || Signal::ChangeObserved,
        || Signal::Interrupted,
    ];
    for raised in [false, true] {
        for first in signals {
            for second in signals {
                let mut c = running();
                if raised {
                    c.on_watch_event(&change(EventKind::Created, "p_plugin.so"));
                }
                c.resolve(first());
                c.resolve(second());
                c.stop();
                let changed = matches!(c.outcome(), Some(Outcome::PluginChanged));
                assert_eq!(c.restart_requested(), changed);
                let failed = matches!(c.outcome(), Some(Outcome::WorkerCompleted(Err(_))));
                if c.phase() == Phase::Terminal {
                    assert_eq!(c.exit_code(), Some(if failed { 1 } else { 0 }));
                }
            }
        }
    }
}

#[test]
fn worker_error_is_handed_on_unchanged() {
    let mut c: Coordinator<(u32, Vec<u8>)> = Coordinator::new();
    c.start(false);
    c.resolve(Signal::WorkerCompleted(Err((7, vec![1, 2, 3]))));
    c.stop();
    assert_eq!(c.into_termination(), Some(Termination::WorkerFailed((7, vec![1, 2, 3]))));
}

#[test]
fn backend_faults_leave_the_condition_alone() {
    let mut c = running();
    let fault: Result<WatchEvent, String> = Err("backend".to_string());
    assert_eq!(c.on_watch_event(&fault), WatchReaction::BackendFault);
    assert!(!c.change_raised());
    assert_eq!(c.on_watch_event(&change(EventKind::Removed, "q_service.dylib")), WatchReaction::Raised);
    assert_eq!(c.on_watch_event(&fault), WatchReaction::BackendFault);
    assert!(c.change_raised());
}
