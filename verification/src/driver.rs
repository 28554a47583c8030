//! The run driver as a state machine: from its phase and what the runtime
//! observed, the next phase and the one action the runtime performs next.
//! A confirmed batch is finished before the model is asked again; at each
//! step head a cancellation is honoured before the session status is read;
//! every exit first makes its snapshot durable; a spent budget pauses.

use vstd::prelude::*;
use crate::lifecycle::{
    checkpoint_error, exit_after_snapshot, external_pause_exit, loop_exit_eq, run_boundary, sat_add,
    LoopExit, PauseReason, RunBoundary, RunBudgetConfig, RunStep, SessionStatus, SESSION_INTERRUPTED,
    run_boundary_spec,
};

verus! {

/// Where the run stands, and what it waits for.
pub enum RunPhase {
    /// Finishing the batch a confirmation woke up.
    ResumingConfirm,
    /// At the head of `step`: waiting for the cancellation and status check.
    AtStepHead { step: u32 },
    /// The turn of `step` runs.
    InTurn { step: u32 },
    /// The exit snapshot at `step` is being written; `exit` follows it, an
    /// external pause when `external`.
    ExitingWithSnapshot { step: u32, exit: LoopExit, external: bool },
    /// The budget pause is being written.
    PausingForBudget { snapshot_step: u32 },
    /// The run is over.
    Finished,
}

/// What the runtime observed.
pub enum RunEvent {
    /// The resumed batch finished: `None` to continue, else the run's exit.
    ConfirmFinished { exit: Option<LoopExit> },
    /// The step head was checked: the cancellation token and the status.
    StepChecked { cancelled: bool, status: Option<SessionStatus> },
    /// The turn finished: `None` to continue, else the run's exit.
    TurnFinished { exit: Option<LoopExit> },
    /// The exit snapshot was written (`durable`) or failed.
    SnapshotWritten { durable: bool },
    /// The budget pause was recorded, or failed with `error`.
    BudgetPaused { error: Option<String> },
}

/// The one thing the runtime does next.
pub enum RunAction {
    /// Finish the confirmed batch.
    FinishConfirmBatch,
    /// Read the cancellation token and the session status for `step`.
    CheckStep { step: u32 },
    /// Run the turn of `step`.
    RunTurn { step: u32, allow_tool_retry: bool },
    /// Write the exit snapshot at `step`; report the interruption first when
    /// `report_interrupted`.
    WriteExitSnapshot { step: u32, report_interrupted: bool },
    /// Checkpoint at `snapshot_step`, mark the session paused and notify.
    PauseForBudget { snapshot_step: u32 },
    /// The run ends with `exit`; per-run message ids are dropped.
    Exit { exit: LoopExit },
    /// The run ends with a hard error; per-run message ids are dropped.
    Fail { error: String },
}

/// The run driver of one session.
pub struct RunDriver {
    pub session_id: String,
    pub budget: RunBudgetConfig,
    pub phase: RunPhase,
}

/// First step of a budget (mirrors `RunBudgetConfig::first_step`).
pub open spec fn first_step_spec(b: RunBudgetConfig) -> RunStep {
    if b.start_step <= b.effective_max {
        RunStep::Turn(b.start_step)
    } else {
        RunStep::BudgetExhausted {
            snapshot_step: sat_add(
                if b.start_step > 0 {
                    b.start_step - 1
                } else {
                    0
                },
                1,
            ) as u32,
        }
    }
}

/// Step after a continued turn (mirrors `RunBudgetConfig::after_turn`).
pub open spec fn after_turn_spec(b: RunBudgetConfig, step: u32) -> RunStep {
    if step < b.effective_max {
        RunStep::Turn((step + 1) as u32)
    } else {
        RunStep::BudgetExhausted { snapshot_step: sat_add(step as int, 1) as u32 }
    }
}

/// The phase and action a budget step leads to.
pub open spec fn go_to(s: RunStep, p: RunPhase, a: RunAction) -> bool {
    match s {
        RunStep::Turn(n) => p == (RunPhase::AtStepHead { step: n }) && a == (RunAction::CheckStep { step: n }),
        RunStep::BudgetExhausted { snapshot_step } => p == (RunPhase::PausingForBudget { snapshot_step })
            && a == (RunAction::PauseForBudget { snapshot_step }),
    }
}

/// The run ends with `exit`.
pub open spec fn ends_with(exit: LoopExit, p: RunPhase, a: RunAction) -> bool {
    p is Finished && (a matches RunAction::Exit { exit: e } && loop_exit_eq(e, exit))
}

/// The event is the one the phase waits for.
pub open spec fn accepts_spec(p: RunPhase, ev: RunEvent) -> bool {
    match (p, ev) {
        (RunPhase::ResumingConfirm, RunEvent::ConfirmFinished { .. }) => true,
        (RunPhase::AtStepHead { .. }, RunEvent::StepChecked { .. }) => true,
        (RunPhase::InTurn { .. }, RunEvent::TurnFinished { .. }) => true,
        (RunPhase::ExitingWithSnapshot { .. }, RunEvent::SnapshotWritten { .. }) => true,
        (RunPhase::PausingForBudget { .. }, RunEvent::BudgetPaused { .. }) => true,
        _ => false,
    }
}

/// One transition of the driver: `pre` takes `ev` to `post` with action `a`.
pub open spec fn transition_ok(
    b: RunBudgetConfig,
    session: Seq<char>,
    pre: RunPhase,
    ev: RunEvent,
    post: RunPhase,
    a: RunAction,
) -> bool {
    match (pre, ev) {
        (RunPhase::ResumingConfirm, RunEvent::ConfirmFinished { exit }) => match exit {
            Some(e) => ends_with(e, post, a),
            None => go_to(first_step_spec(b), post, a),
        },
        (RunPhase::AtStepHead { step }, RunEvent::StepChecked { cancelled, status }) => if cancelled {
            post matches RunPhase::ExitingWithSnapshot { step: s, exit, external } && s == step && exit
                is Cancelled && !external && a == (RunAction::WriteExitSnapshot { step, report_interrupted: false })
        } else {
            match run_boundary_spec(status) {
                RunBoundary::Run => post == (RunPhase::InTurn { step }) && a == (RunAction::RunTurn {
                    step,
                    allow_tool_retry: step < b.effective_max,
                }),
                RunBoundary::ExitCompleted => post matches RunPhase::ExitingWithSnapshot { step: s, exit, external }
                    && s == step && exit is Completed && !external && a == (RunAction::WriteExitSnapshot {
                    step,
                    report_interrupted: false,
                }),
                RunBoundary::ExitInterrupted => post matches RunPhase::ExitingWithSnapshot {
                    step: s,
                    exit,
                    external,
                } && s == step && (exit matches LoopExit::Error(m) && m@ == SESSION_INTERRUPTED@) && !external
                    && a == (RunAction::WriteExitSnapshot { step, report_interrupted: true }),
                RunBoundary::ExitExternalPause => post matches RunPhase::ExitingWithSnapshot {
                    step: s,
                    exit,
                    external,
                } && s == step && exit == (LoopExit::Paused { reason: PauseReason::External }) && external
                    && a == (RunAction::WriteExitSnapshot { step, report_interrupted: false }),
            }
        },
        (RunPhase::InTurn { step }, RunEvent::TurnFinished { exit }) => match exit {
            Some(e) => ends_with(e, post, a),
            None => go_to(after_turn_spec(b, step), post, a),
        },
        (RunPhase::ExitingWithSnapshot { exit, external, .. }, RunEvent::SnapshotWritten { durable }) => {
            &&& post is Finished
            &&& if durable {
                a matches RunAction::Exit { exit: e } && loop_exit_eq(e, exit)
            } else {
                a matches RunAction::Exit { exit: LoopExit::Error(m) } && m@ == checkpoint_error(
                    session,
                    if external {
                        " before pause"@
                    } else {
                        " before exit"@
                    },
                )
            }
        },
        (RunPhase::PausingForBudget { .. }, RunEvent::BudgetPaused { error }) => post is Finished && (match error {
            None => a == (RunAction::Exit { exit: LoopExit::Paused { reason: PauseReason::Budget } }),
            Some(e) => a matches RunAction::Fail { error: f } && f@ == e@,
        }),
        _ => false,
    }
}

fn go_to_exec(s: RunStep) -> (r: (RunPhase, RunAction))
    ensures
        go_to(s, r.0, r.1),
{
    match s {
        RunStep::Turn(n) => (RunPhase::AtStepHead { step: n }, RunAction::CheckStep { step: n }),
        RunStep::BudgetExhausted { snapshot_step } => (
            RunPhase::PausingForBudget { snapshot_step },
            RunAction::PauseForBudget { snapshot_step },
        ),
    }
}

impl RunDriver {
    /// Start a run: a confirmation batch whose entries were all decided is
    /// finished first; otherwise the first step of the budget (or the
    /// budget pause when the range is empty).
    pub fn start(session_id: String, budget: RunBudgetConfig, confirm_batch_decided: bool) -> (r: (
        RunDriver,
        RunAction,
    ))
        ensures
            r.0.session_id == session_id,
            r.0.budget == budget,
            confirm_batch_decided ==> r.0.phase is ResumingConfirm && r.1 is FinishConfirmBatch,
            !confirm_batch_decided ==> go_to(first_step_spec(budget), r.0.phase, r.1),
    {
        if confirm_batch_decided {
            (RunDriver { session_id, budget, phase: RunPhase::ResumingConfirm }, RunAction::FinishConfirmBatch)
        } else {
            let (phase, action) = go_to_exec(budget.first_step());
            (RunDriver { session_id, budget, phase }, action)
        }
    }

    /// Whether `ev` is what the driver waits for.
    pub fn accepts(&self, ev: &RunEvent) -> (r: bool)
        ensures
            r == accepts_spec(self.phase, *ev),
    {
        match (&self.phase, ev) {
            (RunPhase::ResumingConfirm, RunEvent::ConfirmFinished { .. }) => true,
            (RunPhase::AtStepHead { .. }, RunEvent::StepChecked { .. }) => true,
            (RunPhase::InTurn { .. }, RunEvent::TurnFinished { .. }) => true,
            (RunPhase::ExitingWithSnapshot { .. }, RunEvent::SnapshotWritten { .. }) => true,
            (RunPhase::PausingForBudget { .. }, RunEvent::BudgetPaused { .. }) => true,
            _ => false,
        }
    }

    /// Take one event: move to the next phase and say what to do.
    pub fn on_event(&mut self, ev: RunEvent) -> (r: RunAction)
        requires
            accepts_spec(old(self).phase, ev),
        ensures
            final(self).session_id == old(self).session_id,
            final(self).budget == old(self).budget,
            transition_ok(old(self).budget, old(self).session_id@, old(self).phase, ev, final(self).phase, r),
    {
        let mut phase = RunPhase::Finished;
        std::mem::swap(&mut phase, &mut self.phase);
        match (phase, ev) {
            (RunPhase::ResumingConfirm, RunEvent::ConfirmFinished { exit }) => match exit {
                Some(e) => RunAction::Exit { exit: e },
                None => {
                    let (p, a) = go_to_exec(self.budget.first_step());
                    self.phase = p;
                    a
                },
            },
            (RunPhase::AtStepHead { step }, RunEvent::StepChecked { cancelled, status }) => {
                if cancelled {
                    self.phase = RunPhase::ExitingWithSnapshot { step, exit: LoopExit::Cancelled, external: false };
                    return RunAction::WriteExitSnapshot { step, report_interrupted: false };
                }
                match run_boundary(status) {
                    RunBoundary::Run => {
                        self.phase = RunPhase::InTurn { step };
                        RunAction::RunTurn { step, allow_tool_retry: self.budget.allows_tool_retry(step) }
                    },
                    RunBoundary::ExitCompleted => {
                        self.phase = RunPhase::ExitingWithSnapshot {
                            step,
                            exit: LoopExit::Completed,
                            external: false,
                        };
                        RunAction::WriteExitSnapshot { step, report_interrupted: false }
                    },
                    RunBoundary::ExitInterrupted => {
                        self.phase = RunPhase::ExitingWithSnapshot {
                            step,
                            exit: LoopExit::Error(String::from_str(SESSION_INTERRUPTED)),
                            external: false,
                        };
                        RunAction::WriteExitSnapshot { step, report_interrupted: true }
                    },
                    RunBoundary::ExitExternalPause => {
                        self.phase = RunPhase::ExitingWithSnapshot {
                            step,
                            exit: LoopExit::Paused { reason: PauseReason::External },
                            external: true,
                        };
                        RunAction::WriteExitSnapshot { step, report_interrupted: false }
                    },
                }
            },
            (RunPhase::InTurn { step }, RunEvent::TurnFinished { exit }) => match exit {
                Some(e) => RunAction::Exit { exit: e },
                None => {
                    let (p, a) = go_to_exec(self.budget.after_turn(step));
                    self.phase = p;
                    a
                },
            },
            (RunPhase::ExitingWithSnapshot { exit, external, .. }, RunEvent::SnapshotWritten { durable }) => {
                if external && !durable {
                    RunAction::Exit { exit: external_pause_exit(self.session_id.as_str(), false) }
                } else {
                    RunAction::Exit { exit: exit_after_snapshot(self.session_id.as_str(), exit, durable) }
                }
            },
            (RunPhase::PausingForBudget { .. }, RunEvent::BudgetPaused { error }) => match error {
                None => RunAction::Exit { exit: LoopExit::Paused { reason: PauseReason::Budget } },
                Some(e) => RunAction::Fail { error: e },
            },
            (p, _) => {
                self.phase = p;
                RunAction::Fail { error: String::new() }
            },
        }
    }
}

/// Law: a run woken by a decided confirmation batch runs no turn before that
/// batch is finished, and asks for the step check only once it continues.
pub proof fn confirm_batch_precedes_turns(
    b: RunBudgetConfig,
    session: Seq<char>,
    ev: RunEvent,
    post: RunPhase,
    a: RunAction,
)
    requires
        transition_ok(b, session, RunPhase::ResumingConfirm, ev, post, a),
    ensures
        !(a is RunTurn),
        ev is ConfirmFinished,
{
}

/// Law: at a step head a cancellation wins over every session status: the
/// run writes its snapshot and exits cancelled, and never runs the turn.
pub proof fn cancellation_precedes_status(
    b: RunBudgetConfig,
    session: Seq<char>,
    step: u32,
    status: Option<SessionStatus>,
    post: RunPhase,
    a: RunAction,
)
    requires
        transition_ok(
            b,
            session,
            RunPhase::AtStepHead { step },
            RunEvent::StepChecked { cancelled: true, status },
            post,
            a,
        ),
    ensures
        a == (RunAction::WriteExitSnapshot { step, report_interrupted: false }),
        (post matches RunPhase::ExitingWithSnapshot { exit, .. } && exit is Cancelled),
{
}

/// Law: every turn the driver runs lies within the run's budget
/// `start_step ..= effective_max`, and a run leaves the driver only through
/// `Exit` or `Fail`, both of which finish it.
pub proof fn turns_stay_within_budget(
    b: RunBudgetConfig,
    session: Seq<char>,
    pre: RunPhase,
    ev: RunEvent,
    post: RunPhase,
    a: RunAction,
)
    requires
        transition_ok(b, session, pre, ev, post, a),
        pre matches RunPhase::AtStepHead { step } ==> b.start_step <= step <= b.effective_max,
        pre matches RunPhase::InTurn { step } ==> b.start_step <= step <= b.effective_max,
    ensures
        a matches RunAction::RunTurn { step, .. } ==> b.start_step <= step <= b.effective_max,
        post matches RunPhase::AtStepHead { step } ==> b.start_step <= step <= b.effective_max,
        (a is Exit || a is Fail) <==> post is Finished,
{
}

} // verus!
