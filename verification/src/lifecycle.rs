//! Run-scoped lifecycle: why a run stopped, its step budget, and the status
//! checks at each turn boundary.

use vstd::prelude::*;
use vstd::std_specs::cmp::PartialEqSpecImpl;
use crate::ids::{dec_seq, decimal};
use crate::json::eq_str;

verus! {

/// Why a ReAct run stopped at a cooperative boundary.
#[derive(Debug, Clone, Copy, PartialEq, Eq, Structural)]
pub enum PauseReason {
    /// The model produced an answer and no context was queued behind it.
    TurnEnd,
    /// An `ask` tool is waiting for user input.
    Ask,
    /// A tool is waiting for safety confirmation.
    Confirm,
    /// The per-run step budget was exhausted.
    Budget,
    /// The session was paused by another owner.
    External,
}

/// Explicit result of a ReAct run. Hard failures are errors of their own;
/// these variants are normal lifecycle outcomes.
#[derive(Debug)]
pub enum LoopExit {
    Paused { reason: PauseReason },
    Cancelled,
    Completed,
    Error(String),
}

/// Equality of run results: same variant, same pause reason, same error text.
pub open spec fn loop_exit_eq(a: LoopExit, b: LoopExit) -> bool {
    match (a, b) {
        (LoopExit::Paused { reason: x }, LoopExit::Paused { reason: y }) => x == y,
        (LoopExit::Cancelled, LoopExit::Cancelled) => true,
        (LoopExit::Completed, LoopExit::Completed) => true,
        (LoopExit::Error(x), LoopExit::Error(y)) => x@ == y@,
        _ => false,
    }
}

impl PartialEq for LoopExit {
    fn eq(&self, other: &Self) -> (r: bool) {
        match (self, other) {
            (LoopExit::Paused { reason: x }, LoopExit::Paused { reason: y }) => *x == *y,
            (LoopExit::Cancelled, LoopExit::Cancelled) => true,
            (LoopExit::Completed, LoopExit::Completed) => true,
            (LoopExit::Error(x), LoopExit::Error(y)) => eq_str(x.as_str(), y.as_str()),
            _ => false,
        }
    }
}

impl PartialEqSpecImpl for LoopExit {
    open spec fn obeys_eq_spec() -> bool {
        true
    }

    open spec fn eq_spec(&self, other: &LoopExit) -> bool {
        loop_exit_eq(*self, *other)
    }
}

impl Eq for LoopExit {}

/// Lifecycle state of a session as the run driver sees it.
#[derive(Debug, Clone, Copy, PartialEq, Eq, Structural)]
pub enum SessionStatus {
    Pending,
    Running,
    Paused,
    PausedAwaitingAnswer,
    PausedAwaitingConfirm,
    Completed,
    Error,
}

impl SessionStatus {
    pub open spec fn is_paused_spec(self) -> bool {
        self is Paused || self is PausedAwaitingAnswer || self is PausedAwaitingConfirm
    }

    /// Any paused flavour.
    pub fn is_paused(&self) -> (r: bool)
        ensures
            r == self.is_paused_spec(),
    {
        match self {
            SessionStatus::Paused | SessionStatus::PausedAwaitingAnswer
            | SessionStatus::PausedAwaitingConfirm => true,
            _ => false,
        }
    }
}

/// Decision taken at a turn boundary from the session's current status.
#[derive(Debug, PartialEq, Eq)]
pub enum RunBoundary {
    /// Run the next turn.
    Run,
    /// The session is gone or completed: checkpoint and complete.
    ExitCompleted,
    /// The session was interrupted: report and exit with an error.
    ExitInterrupted,
    /// Another owner paused the session: checkpoint and exit paused.
    ExitExternalPause,
}

/// Error text of an interrupted session.
pub const SESSION_INTERRUPTED: &'static str = "session interrupted";

/// The boundary decision for a status (`None`: the session no longer exists).
pub open spec fn run_boundary_spec(status: Option<SessionStatus>) -> RunBoundary {
    match status {
        None => RunBoundary::ExitCompleted,
        Some(SessionStatus::Completed) => RunBoundary::ExitCompleted,
        Some(SessionStatus::Error) => RunBoundary::ExitInterrupted,
        Some(s) => if s.is_paused_spec() {
            RunBoundary::ExitExternalPause
        } else {
            RunBoundary::Run
        },
    }
}

/// Decide whether the next turn runs, from the session's current status.
pub fn run_boundary(status: Option<SessionStatus>) -> (r: RunBoundary)
    ensures
        r == run_boundary_spec(status),
{
    match status {
        None => RunBoundary::ExitCompleted,
        Some(SessionStatus::Completed) => RunBoundary::ExitCompleted,
        Some(SessionStatus::Error) => RunBoundary::ExitInterrupted,
        Some(s) => if s.is_paused() {
            RunBoundary::ExitExternalPause
        } else {
            RunBoundary::Run
        },
    }
}

/// The run result an exit boundary reports.
pub fn boundary_exit(b: &RunBoundary) -> (r: Option<LoopExit>)
    ensures
        match *b {
            RunBoundary::Run => r is None,
            RunBoundary::ExitCompleted => r == Some(LoopExit::Completed),
            RunBoundary::ExitInterrupted => r matches Some(LoopExit::Error(m))
                && m@ == SESSION_INTERRUPTED@,
            RunBoundary::ExitExternalPause => r == Some(
                LoopExit::Paused { reason: PauseReason::External },
            ),
        },
{
    match b {
        RunBoundary::Run => None,
        RunBoundary::ExitCompleted => Some(LoopExit::Completed),
        RunBoundary::ExitInterrupted => Some(LoopExit::Error(String::from_str(SESSION_INTERRUPTED))),
        RunBoundary::ExitExternalPause => Some(LoopExit::Paused { reason: PauseReason::External }),
    }
}

/// Why a turn paused, from the interactions still pending: an `ask` comes
/// before a confirmation, otherwise the turn simply ended.
pub fn pause_reason(pending_ask: bool, pending_confirm: bool) -> (r: PauseReason)
    ensures
        r == if pending_ask {
            PauseReason::Ask
        } else if pending_confirm {
            PauseReason::Confirm
        } else {
            PauseReason::TurnEnd
        },
{
    if pending_ask {
        PauseReason::Ask
    } else if pending_confirm {
        PauseReason::Confirm
    } else {
        PauseReason::TurnEnd
    }
}

/// A pause writes its status unless a resolve already woke the session
/// (`Pending`): a stale pause must not overwrite that transition.
pub fn should_write_pause_status(current: Option<SessionStatus>) -> (r: bool)
    ensures
        r == (current != Some(SessionStatus::Pending)),
{
    match current {
        Some(SessionStatus::Pending) => false,
        _ => true,
    }
}

/// Error of an exit whose snapshot could not be made durable (`when`:
/// " before exit", " before pause", ...).
pub open spec fn checkpoint_error(session_id: Seq<char>, when: Seq<char>) -> Seq<char> {
    "failed to durably checkpoint session '"@ + session_id + "'"@ + when
}

fn checkpoint_error_text(session_id: &str, when: &str) -> (r: String)
    ensures
        r@ == checkpoint_error(session_id@, when@),
{
    let mut e = String::from_str("failed to durably checkpoint session '");
    e.append(session_id);
    e.append("'");
    e.append(when);
    e
}

/// The exit a run reports once its exit snapshot was attempted: the
/// intended exit when the snapshot is durable, else an error.
pub fn exit_after_snapshot(session_id: &str, exit: LoopExit, checkpointed: bool) -> (r: LoopExit)
    ensures
        checkpointed ==> r == exit,
        !checkpointed ==> (r matches LoopExit::Error(m) && m@ == checkpoint_error(session_id@, " before exit"@)),
{
    if checkpointed {
        exit
    } else {
        LoopExit::Error(checkpoint_error_text(session_id, " before exit"))
    }
}

/// The exit of a session another owner paused: paused (external) once the
/// snapshot is durable, else an error.
pub fn external_pause_exit(session_id: &str, checkpointed: bool) -> (r: LoopExit)
    ensures
        checkpointed ==> r == (LoopExit::Paused { reason: PauseReason::External }),
        !checkpointed ==> (r matches LoopExit::Error(m) && m@ == checkpoint_error(session_id@, " before pause"@)),
{
    if checkpointed {
        LoopExit::Paused { reason: PauseReason::External }
    } else {
        LoopExit::Error(checkpoint_error_text(session_id, " before pause"))
    }
}

/// Error of a turn-end pause whose snapshot at `snapshot_step` failed.
pub fn pause_checkpoint_error(session_id: &str, snapshot_step: u32) -> (r: String)
    ensures
        r@ == checkpoint_error(session_id@, " at step "@ + dec_seq(snapshot_step as nat)),
{
    let mut when = String::from_str(" at step ");
    let n = decimal(snapshot_step as u64);
    when.append(n.as_str());
    checkpoint_error_text(session_id, when.as_str())
}

/// Error of a budget pause whose snapshot failed.
pub fn budget_checkpoint_error(session_id: &str) -> (r: String)
    ensures
        r@ == checkpoint_error(session_id@, " after step-budget exhaustion"@),
{
    checkpoint_error_text(session_id, " after step-budget exhaustion")
}

/// Step budget of one run as recorded in snapshots.
#[derive(Debug, Clone, Copy, PartialEq, Eq, Structural)]
pub struct RunBudget {
    pub start_step: u32,
    pub effective_max: u32,
    pub max_steps: u32,
    pub session_max_steps: Option<u32>,
}

/// Where the run driver goes next.
#[derive(Debug, Clone, Copy, PartialEq, Eq, Structural)]
pub enum RunStep {
    /// Run the turn with this step number.
    Turn(u32),
    /// The budget is spent: pause with a checkpoint at `snapshot_step`.
    BudgetExhausted { snapshot_step: u32 },
}

/// Step budget of one run: steps `start_step ..= effective_max` may run.
#[derive(Debug, Clone, Copy)]
pub struct RunBudgetConfig {
    pub start_step: u32,
    pub max_steps: u32,
    pub effective_max: u32,
}

/// `a + b` capped at `u32::MAX`.
pub open spec fn sat_add(a: int, b: int) -> int {
    if a + b > u32::MAX {
        u32::MAX as int
    } else {
        a + b
    }
}

/// Last step a run may take: a resumed run (starting at `start_step`) gets a
/// full `max_steps` budget, bounded by the session-lifetime cap.
pub open spec fn effective_max_spec(max_steps: u32, session_max_steps: Option<u32>, start_step: u32) -> int {
    let resumed_end = sat_add(if start_step > 0 { start_step - 1 } else { 0 }, max_steps as int);
    let per_run_cap = if max_steps >= resumed_end {
        max_steps as int
    } else {
        resumed_end
    };
    match session_max_steps {
        Some(cap) => if cap < per_run_cap {
            cap as int
        } else {
            per_run_cap
        },
        None => per_run_cap,
    }
}

impl RunBudgetConfig {
    /// Budget for a run starting at `start_step`.
    pub fn new(max_steps: u32, session_max_steps: Option<u32>, start_step: u32) -> (r: RunBudgetConfig)
        ensures
            r.start_step == start_step,
            r.max_steps == max_steps,
            r.effective_max == effective_max_spec(max_steps, session_max_steps, start_step),
    {
        let resumed_end = start_step.saturating_sub(1).saturating_add(max_steps);
        let per_run_cap = if max_steps >= resumed_end {
            max_steps
        } else {
            resumed_end
        };
        let effective_max = match session_max_steps {
            Some(cap) => if cap < per_run_cap {
                cap
            } else {
                per_run_cap
            },
            None => per_run_cap,
        };
        RunBudgetConfig { start_step, max_steps, effective_max }
    }

    /// The budget as recorded in snapshots.
    pub fn snapshot(&self, session_max_steps: Option<u32>) -> (r: RunBudget)
        ensures
            r == (RunBudget {
                start_step: self.start_step,
                effective_max: self.effective_max,
                max_steps: self.max_steps,
                session_max_steps,
            }),
    {
        RunBudget {
            start_step: self.start_step,
            effective_max: self.effective_max,
            max_steps: self.max_steps,
            session_max_steps,
        }
    }

    /// A failed tool may still be retried at `step_num`: a later step exists.
    pub fn allows_tool_retry(&self, step_num: u32) -> (r: bool)
        ensures
            r == (step_num < self.effective_max),
    {
        step_num < self.effective_max
    }

    /// The first step of the run, or budget exhaustion when the range is empty.
    pub fn first_step(&self) -> (r: RunStep)
        ensures
            r == if self.start_step <= self.effective_max {
                RunStep::Turn(self.start_step)
            } else {
                RunStep::BudgetExhausted {
                    snapshot_step: sat_add(
                        if self.start_step > 0 {
                            self.start_step - 1
                        } else {
                            0
                        },
                        1,
                    ) as u32,
                }
            },
    {
        if self.start_step <= self.effective_max {
            RunStep::Turn(self.start_step)
        } else {
            RunStep::BudgetExhausted {
                snapshot_step: self.start_step.saturating_sub(1).saturating_add(1),
            }
        }
    }

    /// The step after a turn at `step_num` continued the run: the next step,
    /// or budget exhaustion (checkpointed at the step after the last one).
    pub fn after_turn(&self, step_num: u32) -> (r: RunStep)
        ensures
            r == if step_num < self.effective_max {
                RunStep::Turn((step_num + 1) as u32)
            } else {
                RunStep::BudgetExhausted { snapshot_step: sat_add(step_num as int, 1) as u32 }
            },
    {
        if step_num < self.effective_max {
            RunStep::Turn(step_num + 1)
        } else {
            RunStep::BudgetExhausted { snapshot_step: step_num.saturating_add(1) }
        }
    }
}

/// Law: a run that starts at step `start >= 1` may take exactly `max_steps`
/// steps when neither the session cap nor `u32` saturation interferes, and
/// never more than the session cap allows.
pub proof fn run_budget_is_full_and_capped(max_steps: u32, session_max_steps: Option<u32>, start: u32)
    requires
        start >= 1,
        start - 1 + max_steps <= u32::MAX,
    ensures
        session_max_steps is None ==> effective_max_spec(max_steps, session_max_steps, start) - start
            + 1 == max_steps,
        session_max_steps matches Some(cap) ==> effective_max_spec(
            max_steps,
            session_max_steps,
            start,
        ) <= cap,
{
}

/// Law: a run only runs its next turn while the session is pending or
/// running. Every paused flavour (a plain pause, one awaiting the user's
/// answer, one awaiting a confirmation) checkpoints and exits paused; an
/// errored session exits interrupted; a completed or vanished one exits
/// completed.
pub proof fn turns_run_only_for_live_sessions(s: SessionStatus)
    ensures
        (run_boundary_spec(Some(s)) is Run) <==> (s == SessionStatus::Pending || s == SessionStatus::Running),
        (s == SessionStatus::Paused || s == SessionStatus::PausedAwaitingAnswer || s
            == SessionStatus::PausedAwaitingConfirm) ==> run_boundary_spec(Some(s))
            == RunBoundary::ExitExternalPause,
        s == SessionStatus::Error ==> run_boundary_spec(Some(s)) == RunBoundary::ExitInterrupted,
        s == SessionStatus::Completed ==> run_boundary_spec(Some(s)) == RunBoundary::ExitCompleted,
        run_boundary_spec(None) == RunBoundary::ExitCompleted,
{
}

} // verus!
