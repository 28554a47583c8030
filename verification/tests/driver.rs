use haven_react::driver::{RunAction, RunDriver, RunEvent, RunPhase};
use haven_react::lifecycle::{LoopExit, PauseReason, RunBudgetConfig, SessionStatus};

fn budget(start: u32, max: u32) -> RunBudgetConfig {
    RunBudgetConfig::new(max, None, start)
}

fn running() -> RunEvent {
    RunEvent::StepChecked { cancelled: false, status: Some(SessionStatus::Running) }
}

#[test]
fn a_decided_confirmation_is_finished_before_any_turn() {
    let (mut d, a) = RunDriver::start("s".into(), budget(3, 2), true);
    assert!(matches!(a, RunAction::FinishConfirmBatch));
    let a = d.on_event(RunEvent::ConfirmFinished { exit: None });
    assert!(matches!(a, RunAction::CheckStep { step: 3 }));
    let a = d.on_event(running());
    assert!(matches!(a, RunAction::RunTurn { step: 3, allow_tool_retry: true }));
}

#[test]
fn a_confirmation_that_pauses_again_ends_the_run() {
    let (mut d, _) = RunDriver::start("s".into(), budget(1, 4), true);
    let a = d.on_event(RunEvent::ConfirmFinished {
        exit: Some(LoopExit::Paused { reason: PauseReason::Confirm }),
    });
    assert!(matches!(a, RunAction::Exit { exit: LoopExit::Paused { reason: PauseReason::Confirm } }));
    assert!(matches!(d.phase, RunPhase::Finished));
}

#[test]
fn cancellation_wins_over_the_session_status() {
    let (mut d, _) = RunDriver::start("s".into(), budget(1, 4), false);
    let a = d.on_event(RunEvent::StepChecked { cancelled: true, status: Some(SessionStatus::Error) });
    assert!(matches!(a, RunAction::WriteExitSnapshot { step: 1, report_interrupted: false }));
    let a = d.on_event(RunEvent::SnapshotWritten { durable: true });
    assert!(matches!(a, RunAction::Exit { exit: LoopExit::Cancelled }));
}

#[test]
fn a_spent_budget_pauses_after_the_last_turn() {
    let (mut d, _) = RunDriver::start("s".into(), budget(1, 2), false);
    d.on_event(running());
    let a = d.on_event(RunEvent::TurnFinished { exit: None });
    assert!(matches!(a, RunAction::CheckStep { step: 2 }));
    let a = d.on_event(running());
    assert!(matches!(a, RunAction::RunTurn { step: 2, allow_tool_retry: false }));
    let a = d.on_event(RunEvent::TurnFinished { exit: None });
    assert!(matches!(a, RunAction::PauseForBudget { snapshot_step: 3 }));
    let a = d.on_event(RunEvent::BudgetPaused { error: None });
    assert!(matches!(a, RunAction::Exit { exit: LoopExit::Paused { reason: PauseReason::Budget } }));
}

#[test]
fn interrupted_and_externally_paused_sessions_exit_after_their_snapshot() {
    let (mut d, _) = RunDriver::start("s".into(), budget(1, 4), false);
    let a = d.on_event(RunEvent::StepChecked { cancelled: false, status: Some(SessionStatus::Error) });
    assert!(matches!(a, RunAction::WriteExitSnapshot { step: 1, report_interrupted: true }));
    let a = d.on_event(RunEvent::SnapshotWritten { durable: true });
    assert!(matches!(a, RunAction::Exit { exit: LoopExit::Error(ref m) } if m == "session interrupted"));

    let (mut d, _) = RunDriver::start("s".into(), budget(1, 4), false);
    d.on_event(RunEvent::StepChecked { cancelled: false, status: Some(SessionStatus::Paused) });
    let a = d.on_event(RunEvent::SnapshotWritten { durable: false });
    assert!(matches!(
        a,
        RunAction::Exit { exit: LoopExit::Error(ref m) } if m == "failed to durably checkpoint session 's' before pause"
    ));
}

#[test]
fn a_failed_budget_pause_is_a_hard_error() {
    let (mut d, a) = RunDriver::start("s".into(), budget(5, 0), false);
    assert!(matches!(a, RunAction::PauseForBudget { snapshot_step: 5 }));
    assert!(d.accepts(&RunEvent::BudgetPaused { error: None }));
    assert!(!d.accepts(&running()));
    let a = d.on_event(RunEvent::BudgetPaused { error: Some("db down".into()) });
    assert!(matches!(a, RunAction::Fail { ref error } if error == "db down"));
}
