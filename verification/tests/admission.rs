use haven_react::admission::{
    admission_precheck, admit_tool_batch, ask_pause_status, batch_exit, cancelled_completion,
    checkpoint_after_results, commit_results_now, completed_from_execution, may_overlap,
    plan_retry_nudge, rejected_completion, resume_confirmed_batch, AdmissionEntry, AdmittedCall,
    BatchExit, ExecutionResult, PendingConfirm, ResumeAction, RetryNudgePlan, RetrySignal,
    ToolConcurrency,
};
use haven_react::hooks::{BeforeToolAction, RiskLevel};
use haven_react::json::Json;
use haven_react::lifecycle::SessionStatus;
use haven_react::tool_batch::{ToolExecutionOutcome, MAX_RUNTIME_TOOL_CALLS_PER_BATCH};
use haven_react::types::Action;

fn action(name: &str, id: &str) -> Action {
    Action {
        tool_name: name.into(),
        tool_input: Json::Object(Vec::new()),
        is_final: false,
        tool_call_id: Some(id.into()),
    }
}

fn signal(tool: &str, error: &str, id: Option<&str>, admitted: bool) -> RetrySignal {
    RetrySignal {
        tool_name: tool.into(),
        error: error.into(),
        tool_call_id: id.map(|s| s.to_string()),
        admitted,
    }
}

#[test]
fn writers_of_one_resource_never_overlap() {
    let w = ToolConcurrency::Resource("repo".into());
    let w2 = ToolConcurrency::Resource("repo".into());
    let r = ToolConcurrency::SharedResource("repo".into());
    let other = ToolConcurrency::Resource("db".into());
    assert!(!may_overlap(&w, &w2));
    assert!(!may_overlap(&w, &r));
    assert!(!may_overlap(&r, &w));
    assert!(may_overlap(&w, &other));
    assert!(may_overlap(&r, &ToolConcurrency::SharedResource("repo".into())));
}

#[test]
fn exclusive_calls_overlap_nothing() {
    let x = ToolConcurrency::Exclusive;
    assert!(!may_overlap(&x, &ToolConcurrency::ReadOnly));
    assert!(!may_overlap(&ToolConcurrency::ReadOnly, &x));
    assert!(!may_overlap(&x, &ToolConcurrency::Exclusive));
    assert!(may_overlap(&ToolConcurrency::ReadOnly, &ToolConcurrency::ReadOnly));
}

#[test]
fn precheck_rejects_calls_past_the_runtime_limit() {
    let e = admission_precheck(MAX_RUNTIME_TOOL_CALLS_PER_BATCH, None).unwrap();
    assert_eq!(e, "runtime tool-call limit (64) exceeded; call was not executed");
    assert_eq!(
        admission_precheck(0, Some("missing field".into())),
        Some("missing field".to_string())
    );
    assert_eq!(admission_precheck(MAX_RUNTIME_TOOL_CALLS_PER_BATCH - 1, None), None);
}

#[test]
fn batch_without_confirmation_runs_and_fails_in_plan_order() {
    let entries = vec![
        AdmissionEntry::Gated(BeforeToolAction::Proceed { confirmed: None }),
        AdmissionEntry::Rejected("bad input".into()),
        AdmissionEntry::Gated(BeforeToolAction::Block { error: "blocked".into() }),
        AdmissionEntry::Gated(BeforeToolAction::Proceed { confirmed: Some(true) }),
    ];
    let a = admit_tool_batch(entries);
    assert_eq!(
        a.runnable,
        vec![
            AdmittedCall { plan_index: 0, pre_confirmed: false },
            AdmittedCall { plan_index: 3, pre_confirmed: true },
        ]
    );
    assert_eq!(
        a.failures,
        vec![(1, "bad input".to_string()), (2, "blocked".to_string())]
    );
    assert!(a.need_confirm.is_empty());
}

#[test]
fn one_confirmation_holds_the_whole_batch() {
    let entries = vec![
        AdmissionEntry::Gated(BeforeToolAction::Proceed { confirmed: None }),
        AdmissionEntry::Gated(BeforeToolAction::NeedConfirm { risk_level: RiskLevel::High }),
        AdmissionEntry::Rejected("bad input".into()),
    ];
    let a = admit_tool_batch(entries);
    assert!(a.runnable.is_empty());
    assert!(a.failures.is_empty());
    assert_eq!(
        a.need_confirm,
        vec![
            PendingConfirm { plan_index: 0, risk_level: RiskLevel::Safe, decision: Some(true) },
            PendingConfirm { plan_index: 1, risk_level: RiskLevel::High, decision: None },
            PendingConfirm { plan_index: 2, risk_level: RiskLevel::Safe, decision: Some(true) },
        ]
    );
}

#[test]
fn resume_runs_decided_entries_and_stops_at_the_first_undecided() {
    let pending = vec![
        PendingConfirm { plan_index: 0, risk_level: RiskLevel::Safe, decision: Some(true) },
        PendingConfirm { plan_index: 1, risk_level: RiskLevel::High, decision: Some(true) },
        PendingConfirm { plan_index: 2, risk_level: RiskLevel::Medium, decision: Some(false) },
        PendingConfirm { plan_index: 3, risk_level: RiskLevel::Low, decision: Some(true) },
        PendingConfirm { plan_index: 4, risk_level: RiskLevel::High, decision: None },
    ];
    let prechecks = vec![None, None, None, Some("limit".to_string()), None];
    let plan = resume_confirmed_batch(&pending, prechecks);
    assert!(!plan.complete);
    assert_eq!(plan.actions.len(), 4);
    assert!(matches!(plan.actions[0], ResumeAction::Run { pre_confirmed: false }));
    assert!(matches!(plan.actions[1], ResumeAction::Run { pre_confirmed: true }));
    assert!(matches!(plan.actions[2], ResumeAction::Reject));
    assert!(matches!(&plan.actions[3], ResumeAction::Fail(e) if e == "limit"));
}

#[test]
fn resume_of_a_fully_decided_batch_is_complete() {
    let pending = vec![PendingConfirm {
        plan_index: 0,
        risk_level: RiskLevel::High,
        decision: Some(false),
    }];
    let plan = resume_confirmed_batch(&pending, vec![None]);
    assert!(plan.complete);
    assert!(matches!(plan.actions[0], ResumeAction::Reject));
}

#[test]
fn rejected_and_cancelled_completions_are_observations() {
    let r = rejected_completion(action("shell", "c1"), "s1".into(), 0);
    assert_eq!(r.outcome, ToolExecutionOutcome::Cancelled);
    assert!(r.step_result.contains("shell"));
    let c = cancelled_completion(action("shell", "c2"), "s1".into(), 1, "stopped".into(), true);
    assert_eq!(c.step_result, "stopped");
    assert_eq!(c.outcome, ToolExecutionOutcome::TimedOutUnknown);
    assert!(c.is_error);
    let n = cancelled_completion(action("shell", "c3"), "s1".into(), 2, "stopped".into(), false);
    assert_eq!(n.step_result, "tool call cancelled before execution");
    assert_eq!(n.outcome, ToolExecutionOutcome::Cancelled);
}

#[test]
fn admitted_failures_become_one_nudge_on_the_last_admitted_call() {
    let signals = vec![
        signal("read", "not found", Some("c1"), true),
        signal("write", "denied", Some("c2"), true),
    ];
    let plan = plan_retry_nudge(true, true, false, false, signals, None);
    match plan {
        RetryNudgePlan::Failures { failures, tool_call_id } => {
            assert_eq!(tool_call_id, "c2");
            assert_eq!(
                failures,
                vec![
                    ("read".to_string(), "not found".to_string()),
                    ("write".to_string(), "denied".to_string()),
                ]
            );
        }
        _ => panic!("expected a failure nudge"),
    }
}

#[test]
fn a_refused_retry_stages_the_exhaustion_notice() {
    let signals = vec![signal("read", "not found", Some("c9"), false)];
    let plan = plan_retry_nudge(true, true, false, false, signals, None);
    assert!(matches!(plan, RetryNudgePlan::Exhausted { ref tool_call_id } if tool_call_id == "c9"));
}

#[test]
fn no_nudge_when_the_batch_asked_or_waits_or_retry_is_off() {
    let s = || vec![signal("read", "not found", Some("c1"), true)];
    assert!(matches!(plan_retry_nudge(true, true, true, false, s(), None), RetryNudgePlan::NoNudge));
    assert!(matches!(plan_retry_nudge(true, true, false, true, s(), None), RetryNudgePlan::NoNudge));
    assert!(matches!(plan_retry_nudge(false, true, false, false, s(), None), RetryNudgePlan::NoNudge));
}

#[test]
fn batch_exit_prefers_cancellation_then_confirmation() {
    assert_eq!(batch_exit(true, true, true), BatchExit::Cancelled);
    assert_eq!(batch_exit(false, true, true), BatchExit::ConfirmPause { stash_ask: true });
    assert_eq!(batch_exit(false, false, true), BatchExit::AskPause);
    assert_eq!(batch_exit(false, false, false), BatchExit::Boundary);
    assert!(commit_results_now(true, true));
    assert!(!commit_results_now(false, true));
    assert!(checkpoint_after_results(false, false));
    assert!(!checkpoint_after_results(false, true));
}

#[test]
fn execution_errors_become_failed_observations() {
    let ran = completed_from_execution(
        action("read", "c1"),
        "s1".into(),
        0,
        ExecutionResult::Ran {
            observation: "ok".into(),
            success: true,
            outcome: ToolExecutionOutcome::Succeeded,
            ask_question: None,
            ask_options: Vec::new(),
            notify_title: None,
            notify_body: None,
        },
    );
    assert_eq!(ran.step_result, "ok");
    assert!(!ran.is_error);
    let lost = completed_from_execution(
        action("write", "c2"),
        "s1".into(),
        1,
        ExecutionResult::Errored { message: "db down".into(), persistence_error: true },
    );
    assert!(lost.is_error);
    assert_eq!(lost.outcome, ToolExecutionOutcome::TimedOutUnknown);
    let failed = completed_from_execution(
        action("write", "c3"),
        "s1".into(),
        2,
        ExecutionResult::Errored { message: "boom".into(), persistence_error: false },
    );
    assert_eq!(failed.outcome, ToolExecutionOutcome::Failed);
    assert_eq!(failed.tool_name, "write");
}

#[test]
fn ask_pause_returns_to_pending_when_answered() {
    assert_eq!(ask_pause_status(true), SessionStatus::Pending);
    assert_eq!(ask_pause_status(false), SessionStatus::PausedAwaitingAnswer);
}
