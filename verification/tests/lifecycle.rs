use haven_react::lifecycle::{budget_checkpoint_error, exit_after_snapshot, external_pause_exit, pause_checkpoint_error};
use haven_react::lifecycle::{pause_reason, should_write_pause_status};
use haven_react::engine::{ContextLimits, ReActEngine};
use haven_react::lifecycle::{
    boundary_exit, run_boundary, LoopExit, PauseReason, RunBoundary, RunBudgetConfig, RunStep,
    SessionStatus, SESSION_INTERRUPTED,
};

#[test]
fn fresh_run_uses_the_configured_step_budget() {
    let budget = RunBudgetConfig::new(4, None, 1);

    assert_eq!(budget.start_step, 1);
    assert_eq!(budget.max_steps, 4);
    assert_eq!(budget.effective_max, 4);
}

#[test]
fn resumed_run_gets_a_full_budget_but_respects_session_cap() {
    let budget = RunBudgetConfig::new(4, Some(9), 7);

    assert_eq!(budget.start_step, 7);
    assert_eq!(budget.max_steps, 4);
    assert_eq!(budget.effective_max, 9);
}

#[test]
fn resumed_run_allows_retry_until_its_absolute_end() {
    let budget = RunBudgetConfig::new(4, Some(9), 7);

    assert!(budget.allows_tool_retry(7));
    assert!(budget.allows_tool_retry(8));
    assert!(!budget.allows_tool_retry(9));
}

#[test]
fn loop_exit_variants_distinguish_pause_reasons() {
    assert_eq!(
        LoopExit::Paused {
            reason: PauseReason::Ask
        },
        LoopExit::Paused {
            reason: PauseReason::Ask
        }
    );
    assert_ne!(
        LoopExit::Paused {
            reason: PauseReason::Ask
        },
        LoopExit::Paused {
            reason: PauseReason::TurnEnd
        }
    );
    assert_ne!(LoopExit::Cancelled, LoopExit::Completed);
    assert!(matches!(LoopExit::Error("x".into()), LoopExit::Error(_)));
}

#[test]
fn resumed_run_without_cap_gets_exactly_max_steps() {
    let budget = RunBudgetConfig::new(4, None, 7);
    assert_eq!(budget.effective_max, 10);
    assert_eq!(budget.first_step(), RunStep::Turn(7));
    assert_eq!(budget.after_turn(9), RunStep::Turn(10));
    assert_eq!(
        budget.after_turn(10),
        RunStep::BudgetExhausted { snapshot_step: 11 }
    );
}

#[test]
fn session_cap_below_start_exhausts_immediately() {
    let budget = RunBudgetConfig::new(4, Some(3), 5);
    assert_eq!(budget.effective_max, 3);
    assert_eq!(
        budget.first_step(),
        RunStep::BudgetExhausted { snapshot_step: 5 }
    );
}

#[test]
fn budget_snapshot_records_the_limits() {
    let budget = RunBudgetConfig::new(4, Some(9), 7);
    let snap = budget.snapshot(Some(9));
    assert_eq!(snap.start_step, 7);
    assert_eq!(snap.effective_max, 9);
    assert_eq!(snap.max_steps, 4);
    assert_eq!(snap.session_max_steps, Some(9));
}

#[test]
fn run_boundary_follows_session_status() {
    assert_eq!(run_boundary(None), RunBoundary::ExitCompleted);
    assert_eq!(
        run_boundary(Some(SessionStatus::Completed)),
        RunBoundary::ExitCompleted
    );
    assert_eq!(
        run_boundary(Some(SessionStatus::Error)),
        RunBoundary::ExitInterrupted
    );
    assert_eq!(
        run_boundary(Some(SessionStatus::PausedAwaitingConfirm)),
        RunBoundary::ExitExternalPause
    );
    assert_eq!(run_boundary(Some(SessionStatus::Running)), RunBoundary::Run);
    assert_eq!(boundary_exit(&RunBoundary::Run), None);
    assert_eq!(
        boundary_exit(&RunBoundary::ExitInterrupted),
        Some(LoopExit::Error(SESSION_INTERRUPTED.to_string()))
    );
    assert_eq!(
        boundary_exit(&RunBoundary::ExitExternalPause),
        Some(LoopExit::Paused {
            reason: PauseReason::External
        })
    );
}

fn limits() -> ContextLimits {
    ContextLimits {
        default_context_window: 128_000,
        compaction_reserve_tokens: 8_000,
        cut_off_retries: 2,
        empty_response_max_retries: 2,
        empty_response_retry_delay_ms: 500,
        stream_stall_warn_delay_ms: 15_000,
        event_chunk_batch_max_bytes: 4096,
        partial_checkpoint_min_chars: 200,
        partial_checkpoint_interval_secs: 2,
        fact_infer_interval_steps: 5,
    }
}

#[test]
fn engine_run_ids_count_up_from_zero() {
    let mut engine = ReActEngine::new(10, limits(), "test".to_string());
    assert_eq!(engine.next_run_id(), 0);
    assert_eq!(engine.next_run_id(), 1);
    engine.set_current_run_id(7);
    assert_eq!(engine.current_run_id(), 7);
    assert_eq!(engine.next_run_id(), 2);
}

#[test]
fn engine_budget_uses_current_limits() {
    let mut engine = ReActEngine::new(10, limits(), "test".to_string());
    engine.set_max_steps(4);
    engine.set_session_max_steps(Some(9));
    let budget = engine.run_budget_config(7);
    assert_eq!(budget.effective_max, 9);
    engine.set_session_max_steps(None);
    assert_eq!(engine.run_budget_config(7).effective_max, 10);
}

#[test]
fn engine_run_budget_is_kept_per_session() {
    let mut engine = ReActEngine::new(10, limits(), "test".to_string());
    let budget = engine.run_budget_config(1).snapshot(None);
    engine.set_run_budget("ses-a", budget);
    assert_eq!(engine.current_run_budget("ses-a"), Some(budget));
    assert_eq!(engine.current_run_budget("ses-b"), None);
    engine.clear_run_budget("ses-a");
    assert_eq!(engine.current_run_budget("ses-a"), None);
}

#[test]
fn pause_reason_prefers_ask_over_confirmation() {
    assert_eq!(pause_reason(true, true), PauseReason::Ask);
    assert_eq!(pause_reason(false, true), PauseReason::Confirm);
    assert_eq!(pause_reason(false, false), PauseReason::TurnEnd);
}

#[test]
fn stale_pause_does_not_overwrite_a_resolved_session() {
    assert!(should_write_pause_status(Some(SessionStatus::Running)));
    assert!(!should_write_pause_status(Some(SessionStatus::Pending)));
    assert!(should_write_pause_status(None));
}

#[test]
fn exits_wait_for_a_durable_snapshot() {
    assert_eq!(exit_after_snapshot("s1", LoopExit::Cancelled, true), LoopExit::Cancelled);
    assert_eq!(
        exit_after_snapshot("s1", LoopExit::Completed, false),
        LoopExit::Error("failed to durably checkpoint session 's1' before exit".to_string())
    );
    assert_eq!(
        external_pause_exit("s1", true),
        LoopExit::Paused { reason: PauseReason::External }
    );
    assert_eq!(
        external_pause_exit("s1", false),
        LoopExit::Error("failed to durably checkpoint session 's1' before pause".to_string())
    );
    assert_eq!(pause_checkpoint_error("s1", 12), "failed to durably checkpoint session 's1' at step 12");
    assert_eq!(
        budget_checkpoint_error("s1"),
        "failed to durably checkpoint session 's1' after step-budget exhaustion"
    );
}
