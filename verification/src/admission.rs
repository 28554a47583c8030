//! Admission of one assistant tool batch: what may run, what fails before
//! running, and the confirmation barrier that holds the whole batch; which
//! admitted calls may overlap; and how an execution result becomes the
//! batch's observation.

use vstd::prelude::*;
use crate::hooks::{BeforeToolAction, RiskLevel};
use crate::ids::dec_seq;
use crate::json::eq_str;
use crate::lifecycle::SessionStatus;
use crate::tool_batch::{CompletedTool, ToolExecutionOutcome, MAX_RUNTIME_TOOL_CALLS_PER_BATCH};
use crate::types::Action;

verus! {

/// How a tool call may share the batch with others.
pub enum ToolConcurrency {
    /// Reads only: runs beside anything but an exclusive call.
    ReadOnly,
    /// Reads the named resource: beside other readers of it.
    SharedResource(String),
    /// Writes the named resource: alone on it.
    Resource(String),
    /// Runs alone.
    Exclusive,
}

/// Two admitted calls may hold their permits at the same time.
pub open spec fn may_overlap_spec(a: ToolConcurrency, b: ToolConcurrency) -> bool {
    match (a, b) {
        (ToolConcurrency::Exclusive, _) => false,
        (_, ToolConcurrency::Exclusive) => false,
        (ToolConcurrency::Resource(x), ToolConcurrency::Resource(y)) => x@ != y@,
        (ToolConcurrency::Resource(x), ToolConcurrency::SharedResource(y)) => x@ != y@,
        (ToolConcurrency::SharedResource(x), ToolConcurrency::Resource(y)) => x@ != y@,
        _ => true,
    }
}

/// Whether two calls may run at the same time under the batch gate.
pub fn may_overlap(a: &ToolConcurrency, b: &ToolConcurrency) -> (r: bool)
    ensures
        r == may_overlap_spec(*a, *b),
{
    match (a, b) {
        (ToolConcurrency::Exclusive, _) => false,
        (_, ToolConcurrency::Exclusive) => false,
        (ToolConcurrency::Resource(x), ToolConcurrency::Resource(y)) => !eq_str(x.as_str(), y.as_str()),
        (ToolConcurrency::Resource(x), ToolConcurrency::SharedResource(y)) => !eq_str(x.as_str(), y.as_str()),
        (ToolConcurrency::SharedResource(x), ToolConcurrency::Resource(y)) => !eq_str(x.as_str(), y.as_str()),
        _ => true,
    }
}

/// Law: overlap is symmetric, a writer of a resource never overlaps another
/// call on that resource, and an exclusive call overlaps nothing.
pub proof fn overlap_is_symmetric_and_exclusive(a: ToolConcurrency, b: ToolConcurrency)
    ensures
        may_overlap_spec(a, b) == may_overlap_spec(b, a),
        (a is Exclusive || b is Exclusive) ==> !may_overlap_spec(a, b),
        (a matches ToolConcurrency::Resource(x) && (b matches ToolConcurrency::Resource(y) && x@ == y@))
            ==> !may_overlap_spec(a, b),
        (a matches ToolConcurrency::Resource(x) && (b matches ToolConcurrency::SharedResource(y) && x@
            == y@)) ==> !may_overlap_spec(a, b),
        (a is ReadOnly && !(b is Exclusive)) ==> may_overlap_spec(a, b),
{
}

/// Error of a call past the runtime limit.
pub open spec fn over_limit_error() -> Seq<char> {
    "runtime tool-call limit ("@ + dec_seq(MAX_RUNTIME_TOOL_CALLS_PER_BATCH as nat)
        + ") exceeded; call was not executed"@
}

/// Why a planned call fails before the safety policy is consulted: past the runtime
/// limit, or its input failed validation (`validation_error`).
pub fn admission_precheck(plan_index: usize, validation_error: Option<String>) -> (r: Option<String>)
    ensures
        plan_index >= MAX_RUNTIME_TOOL_CALLS_PER_BATCH ==> (r matches Some(e) && e@ == over_limit_error()),
        plan_index < MAX_RUNTIME_TOOL_CALLS_PER_BATCH ==> match validation_error {
            Some(v) => r matches Some(e) && e@ == v@,
            None => r is None,
        },
{
    if plan_index >= MAX_RUNTIME_TOOL_CALLS_PER_BATCH {
        let mut e = String::from_str("runtime tool-call limit (");
        let n = crate::ids::decimal(MAX_RUNTIME_TOOL_CALLS_PER_BATCH as u64);
        e.append(n.as_str());
        e.append(") exceeded; call was not executed");
        return Some(e);
    }
    validation_error
}

/// What admission knows of one planned call.
pub enum AdmissionEntry {
    /// Failed before the safety policy was consulted (limit or validation),
    /// with its error.
    Rejected(String),
    /// The safety policy's decision.
    Gated(BeforeToolAction),
}

/// A call that may run now.
#[derive(Debug, Clone, Copy, PartialEq, Eq, Structural)]
pub struct AdmittedCall {
    pub plan_index: usize,
    /// The user already confirmed it.
    pub pre_confirmed: bool,
}

/// One entry of a batch held behind the confirmation barrier.
#[derive(Debug, Clone, Copy, PartialEq, Eq, Structural)]
pub struct PendingConfirm {
    pub plan_index: usize,
    pub risk_level: RiskLevel,
    /// `None`: waits for the user; `Some(true)`: needs no decision.
    pub decision: Option<bool>,
}

/// Admission of a batch.
pub struct BatchAdmission {
    pub runnable: Vec<AdmittedCall>,
    pub need_confirm: Vec<PendingConfirm>,
    /// Calls that fail without running, with their observation.
    pub failures: Vec<(usize, String)>,
}

/// Some call needs the user's confirmation.
pub open spec fn needs_confirmation(entries: Seq<AdmissionEntry>) -> bool {
    exists|i: int| 0 <= i < entries.len() && (#[trigger] entries[i] matches AdmissionEntry::Gated(
        BeforeToolAction::NeedConfirm { .. },
    ))
}

/// The runnable calls among the first `n` entries, in plan order.
pub open spec fn runnable_spec(entries: Seq<AdmissionEntry>, n: int) -> Seq<AdmittedCall>
    decreases n,
{
    if n <= 0 {
        Seq::empty()
    } else {
        let prev = runnable_spec(entries, n - 1);
        match entries[n - 1] {
            AdmissionEntry::Gated(BeforeToolAction::Proceed { confirmed }) => prev.push(
                AdmittedCall { plan_index: (n - 1) as usize, pre_confirmed: confirmed == Some(true) },
            ),
            _ => prev,
        }
    }
}

/// The failing calls among the first `n` entries with their errors.
pub open spec fn failures_spec(entries: Seq<AdmissionEntry>, n: int) -> Seq<(usize, Seq<char>)>
    decreases n,
{
    if n <= 0 {
        Seq::empty()
    } else {
        let prev = failures_spec(entries, n - 1);
        match entries[n - 1] {
            AdmissionEntry::Rejected(e) => prev.push(((n - 1) as usize, e@)),
            AdmissionEntry::Gated(BeforeToolAction::Block { error }) => prev.push(((n - 1) as usize, error@)),
            _ => prev,
        }
    }
}

/// Entry `i` behind the barrier: gated calls wait at their risk, every
/// other call is carried along with no decision needed.
pub open spec fn pending_of(entries: Seq<AdmissionEntry>, i: int) -> PendingConfirm {
    match entries[i] {
        AdmissionEntry::Gated(BeforeToolAction::NeedConfirm { risk_level }) => PendingConfirm {
            plan_index: i as usize,
            risk_level,
            decision: None,
        },
        _ => PendingConfirm { plan_index: i as usize, risk_level: RiskLevel::Safe, decision: Some(true) },
    }
}

/// Admit a planned batch. Without a confirmation, approved calls run and
/// the rest fail with their errors. A confirmation is a barrier for the
/// whole batch: nothing runs, and every entry is held for the resume.
pub fn admit_tool_batch(entries: Vec<AdmissionEntry>) -> (r: BatchAdmission)
    ensures
        !needs_confirmation(entries@) ==> {
            &&& r.runnable@ == runnable_spec(entries@, entries@.len() as int)
            &&& r.failures@.map_values(|f: (usize, String)| (f.0, f.1@)) == failures_spec(entries@, entries@.len() as int)
            &&& r.need_confirm@.len() == 0
        },
        needs_confirmation(entries@) ==> {
            &&& r.runnable@.len() == 0
            &&& r.failures@.len() == 0
            &&& r.need_confirm@.len() == entries@.len()
            &&& forall|i: int| 0 <= i < entries@.len() ==> #[trigger] r.need_confirm@[i] == pending_of(entries@, i)
        },
{
    let ghost all = entries@;
    let mut runnable: Vec<AdmittedCall> = Vec::new();
    let mut failures: Vec<(usize, String)> = Vec::new();
    let mut pending: Vec<PendingConfirm> = Vec::new();
    let mut gated = false;
    let mut i: usize = 0;
    let mut rest = entries;
    let total = rest.len();
    while rest.len() > 0
        invariant
            all.len() == total,
            i + rest@.len() == total,
            rest@ == all.skip(i as int),
            runnable@ == runnable_spec(all, i as int),
            failures@.map_values(|f: (usize, String)| (f.0, f.1@)) == failures_spec(all, i as int),
            pending@.len() == i,
            forall|k: int| 0 <= k < i ==> #[trigger] pending@[k] == pending_of(all, k),
            gated == exists|k: int| 0 <= k < i && (#[trigger] all[k] matches AdmissionEntry::Gated(
                BeforeToolAction::NeedConfirm { .. },
            )),
        decreases rest.len(),
    {
        let entry = rest.remove(0);
        proof {
            assert(entry == all[i as int]);
            assert(rest@ =~= all.skip(i + 1));
        }
        let ghost fs = failures@;
        match entry {
            AdmissionEntry::Rejected(e) => {
                pending.push(PendingConfirm { plan_index: i, risk_level: RiskLevel::Safe, decision: Some(true) });
                failures.push((i, e));
            },
            AdmissionEntry::Gated(BeforeToolAction::Proceed { confirmed }) => {
                pending.push(PendingConfirm { plan_index: i, risk_level: RiskLevel::Safe, decision: Some(true) });
                let pre = match confirmed {
                    Some(c) => c,
                    None => false,
                };
                runnable.push(AdmittedCall { plan_index: i, pre_confirmed: pre });
            },
            AdmissionEntry::Gated(BeforeToolAction::Block { error }) => {
                pending.push(PendingConfirm { plan_index: i, risk_level: RiskLevel::Safe, decision: Some(true) });
                failures.push((i, error));
            },
            AdmissionEntry::Gated(BeforeToolAction::NeedConfirm { risk_level }) => {
                pending.push(PendingConfirm { plan_index: i, risk_level, decision: None });
                gated = true;
            },
        }
        proof {
            assert(failures@.map_values(|f: (usize, String)| (f.0, f.1@)) =~= failures_spec(all, i + 1)) by {
                if failures@.len() > fs.len() {
                    assert(failures@.drop_last() == fs);
                    assert(fs.map_values(|f: (usize, String)| (f.0, f.1@)) == failures@.map_values(
                        |f: (usize, String)| (f.0, f.1@),
                    ).drop_last());
                }
            }
        }
        i += 1;
    }
    proof {
        assert(all.skip(i as int).len() == 0);
    }
    if gated {
        BatchAdmission { runnable: Vec::new(), need_confirm: pending, failures: Vec::new() }
    } else {
        BatchAdmission { runnable, need_confirm: Vec::new(), failures }
    }
}

/// What the resume of a confirmed batch does with one held entry.
pub enum ResumeAction {
    /// Run it; only a call that crossed the confirmation gate skips the
    /// gate again (safe siblings are rechecked after the pause).
    Run { pre_confirmed: bool },
    /// Fail it without running (limit or validation) with this error.
    Fail(String),
    /// The user declined it.
    Reject,
}

/// The resume of held entries: one action per entry up to the first one
/// without a recorded decision; `complete` when every entry had one.
pub struct ResumePlan {
    pub actions: Vec<ResumeAction>,
    pub complete: bool,
}

/// Index of the first entry without a decision (the length when none).
pub open spec fn first_undecided(pending: Seq<PendingConfirm>, i: int) -> int
    decreases pending.len() - i,
{
    if i >= pending.len() || i < 0 {
        pending.len() as int
    } else if pending[i].decision is None {
        i
    } else {
        first_undecided(pending, i + 1)
    }
}

/// The resume action of a decided entry with precheck result `pre`.
pub open spec fn resume_action_ok(p: PendingConfirm, pre: Option<String>, a: ResumeAction) -> bool {
    match pre {
        Some(e) => a matches ResumeAction::Fail(f) && f@ == e@,
        None => if p.decision == Some(true) {
            a == ResumeAction::Run { pre_confirmed: p.risk_level != RiskLevel::Safe }
        } else {
            a is Reject
        },
    }
}

/// Plan the resume of a batch held behind the confirmation barrier;
/// `prechecks[i]` is the limit / validation error of entry `i`, checked
/// anew after the pause.
pub fn resume_confirmed_batch(pending: &[PendingConfirm], prechecks: Vec<Option<String>>) -> (r: ResumePlan)
    requires
        prechecks@.len() == pending@.len(),
    ensures
        r.complete == (first_undecided(pending@, 0) == pending@.len()),
        r.actions@.len() == first_undecided(pending@, 0),
        forall|i: int| 0 <= i < r.actions@.len() ==> resume_action_ok(pending@[i], prechecks@[i], #[trigger] r.actions@[i]),
{
    let ghost pre_all = prechecks@;
    let mut actions: Vec<ResumeAction> = Vec::new();
    let mut rest = prechecks;
    let mut i: usize = 0;
    while i < pending.len()
        invariant
            i <= pending@.len(),
            pre_all.len() == pending@.len(),
            pre_all == prechecks@,
            rest@ == pre_all.skip(i as int),
            actions@.len() == i,
            first_undecided(pending@, 0) == first_undecided(pending@, i as int),
            forall|k: int| 0 <= k < i ==> resume_action_ok(pending@[k], pre_all[k], #[trigger] actions@[k]),
        decreases pending.len() - i,
    {
        let p = pending[i];
        let pre = rest.remove(0);
        proof {
            assert(pre == pre_all[i as int]);
            assert(rest@ =~= pre_all.skip(i + 1));
        }
        let decision = match p.decision {
            Some(d) => d,
            None => {
                return ResumePlan { actions, complete: false };
            },
        };
        let action = match pre {
            Some(e) => ResumeAction::Fail(e),
            None => if decision {
                ResumeAction::Run { pre_confirmed: p.risk_level != RiskLevel::Safe }
            } else {
                ResumeAction::Reject
            },
        };
        actions.push(action);
        i += 1;
    }
    ResumePlan { actions, complete: true }
}

/// The result of a call the user declined: a non-retryable cancellation.
pub fn rejected_completion(action: Action, step_id: String, action_index: u32) -> (r: CompletedTool)
    ensures
        r.action == action,
        r.step_result@ == crate::tool_batch::rejection_observation_spec(action.tool_name@),
        r.outcome == ToolExecutionOutcome::Cancelled,
        r.is_error,
        r.step_id == step_id,
        r.action_index == action_index,
{
    let error = crate::tool_batch::rejection_observation(action.tool_name.as_str());
    CompletedTool::from_observation(action, step_id, action_index, error, ToolExecutionOutcome::Cancelled)
}

/// Result of a call the cancellation caught: an interruption report (effect
/// unknown) when it had started, a not-executed notice otherwise.
pub fn cancelled_completion(action: Action, step_id: String, action_index: u32, interrupted_report: String, was_started: bool) -> (r: CompletedTool)
    ensures
        r.action == action,
        r.step_result@ == (if was_started {
            interrupted_report@
        } else {
            crate::tool_batch::CANCELLED_BEFORE_EXECUTION@
        }),
        r.outcome == if was_started {
            ToolExecutionOutcome::TimedOutUnknown
        } else {
            ToolExecutionOutcome::Cancelled
        },
        r.is_error,
        r.step_id == step_id,
        r.action_index == action_index,
{
    let text = crate::tool_batch::cancellation_observation(interrupted_report, was_started);
    let outcome = crate::tool_batch::tool_execution_outcome(
        if was_started {
            crate::tool_batch::ActionStepOutcome::Unknown
        } else {
            crate::tool_batch::ActionStepOutcome::Cancelled
        },
    );
    CompletedTool::from_observation(action, step_id, action_index, text, outcome)
}

/// Nudge staged when the retry budget of a failure is spent.
pub const RETRY_BUDGET_EXHAUSTED_NUDGE: &'static str = "The automatic retry budget for this exact tool operation and failure kind is exhausted. Do not repeat the same call; change the approach or ask the user for guidance.";

/// One failure of the batch, with the retry budget's verdict on it.
pub struct RetrySignal {
    pub tool_name: String,
    pub error: String,
    pub tool_call_id: Option<String>,
    /// The retry budget admitted another attempt.
    pub admitted: bool,
}

/// Which retry hint the next request carries.
pub enum RetryNudgePlan {
    NoNudge,
    /// Build the failure nudge from these (tool, error) pairs and attach it
    /// to `tool_call_id`.
    Failures { failures: Vec<(String, String)>, tool_call_id: String },
    /// Tell the model the budget is spent, on `tool_call_id`.
    Exhausted { tool_call_id: String },
}

/// The admitted failures among the first `n` signals.
pub open spec fn admitted_spec(signals: Seq<RetrySignal>, n: int) -> Seq<(Seq<char>, Seq<char>)>
    decreases n,
{
    if n <= 0 {
        Seq::empty()
    } else if signals[n - 1].admitted {
        admitted_spec(signals, n - 1).push((signals[n - 1].tool_name@, signals[n - 1].error@))
    } else {
        admitted_spec(signals, n - 1)
    }
}

/// Index of the last admitted signal among the first `n`.
pub open spec fn last_admitted(signals: Seq<RetrySignal>, n: int) -> Option<int>
    decreases n,
{
    if n <= 0 {
        None
    } else if signals[n - 1].admitted {
        Some(n - 1)
    } else {
        last_admitted(signals, n - 1)
    }
}

/// Index of the first signal the budget refused, from `i` on.
pub open spec fn first_refused(signals: Seq<RetrySignal>, i: int) -> Option<int>
    decreases signals.len() - i,
{
    if i < 0 || i >= signals.len() {
        None
    } else if !signals[i].admitted {
        Some(i)
    } else {
        first_refused(signals, i + 1)
    }
}

/// The call the failure nudge is attached to: the last admitted failure's,
/// else the batch's last retryable failure's.
pub open spec fn nudge_target(signals: Seq<RetrySignal>, last_retryable: Option<String>) -> Option<Seq<char>> {
    match last_admitted(signals, signals.len() as int) {
        Some(i) => match signals[i].tool_call_id {
            Some(id) => Some(id@),
            None => match last_retryable {
                Some(id) => Some(id@),
                None => None,
            },
        },
        None => match last_retryable {
            Some(id) => Some(id@),
            None => None,
        },
    }
}

/// The retry hint after a batch: none when the batch asked the user or
/// waits for a confirmation (it would precede their answer); the failure
/// nudge when a retryable failure was admitted by the budget; the
/// exhaustion notice when the budget refused one.
pub open spec fn retry_plan_ok(
    allow_tool_retry: bool,
    retryable_failure: bool,
    asked: bool,
    need_confirm: bool,
    signals: Seq<RetrySignal>,
    last_retryable: Option<String>,
    r: RetryNudgePlan,
) -> bool {
    let admitted = if allow_tool_retry { admitted_spec(signals, signals.len() as int) } else { Seq::empty() };
    let refused = if allow_tool_retry { first_refused(signals, 0) } else { None };
    if retryable_failure && !asked && !need_confirm && admitted.len() > 0 {
        match nudge_target(signals, last_retryable) {
            Some(id) => r matches RetryNudgePlan::Failures { failures, tool_call_id } && tool_call_id@ == id
                && failures@.map_values(|f: (String, String)| (f.0@, f.1@)) == admitted,
            None => r is NoNudge,
        }
    } else if refused is Some && !asked && !need_confirm {
        match signals[refused->0].tool_call_id {
            Some(id) => r matches RetryNudgePlan::Exhausted { tool_call_id } && tool_call_id@ == id@,
            None => r is NoNudge,
        }
    } else {
        r is NoNudge
    }
}

proof fn lemma_admitted_len(signals: Seq<RetrySignal>, n: int)
    requires
        0 <= n <= signals.len(),
    ensures
        (admitted_spec(signals, n).len() > 0) == (last_admitted(signals, n) is Some),
        last_admitted(signals, n) matches Some(i) ==> 0 <= i < n && signals[i].admitted,
    decreases n,
{
    if n > 0 {
        lemma_admitted_len(signals, n - 1);
    }
}

/// Plan the retry hint of a finished batch.
pub fn plan_retry_nudge(
    allow_tool_retry: bool,
    retryable_failure: bool,
    asked: bool,
    need_confirm: bool,
    signals: Vec<RetrySignal>,
    last_retryable: Option<String>,
) -> (r: RetryNudgePlan)
    ensures
        retry_plan_ok(allow_tool_retry, retryable_failure, asked, need_confirm, signals@, last_retryable, r),
{
    let ghost all = signals@;
    let mut admitted: Vec<(String, String)> = Vec::new();
    let mut last_id: Option<Option<String>> = None;
    let mut refused: Option<Option<String>> = None;
    if allow_tool_retry {
        let mut i: usize = 0;
        while i < signals.len()
            invariant
                i <= signals@.len(),
                all == signals@,
                admitted@.map_values(|f: (String, String)| (f.0@, f.1@)) == admitted_spec(all, i as int),
                match last_admitted(all, i as int) {
                    Some(k) => last_id matches Some(x) && x == all[k].tool_call_id,
                    None => last_id is None,
                },
                first_refused(all, 0) == match refused {
                    Some(_) => first_refused(all, 0),
                    None => first_refused(all, i as int),
                },
                match refused {
                    Some(x) => first_refused(all, 0) matches Some(k) && k < i && x == all[k].tool_call_id,
                    None => true,
                },
            decreases signals.len() - i,
        {
            let sig = &signals[i];
            let ghost before = admitted@;
            if sig.admitted {
                admitted.push((sig.tool_name.clone(), sig.error.clone()));
                last_id = Some(sig.tool_call_id.clone());
                proof {
                    assert(admitted@.drop_last() == before);
                    assert(admitted@.map_values(|f: (String, String)| (f.0@, f.1@)) =~= admitted_spec(all, i + 1));
                }
            } else if refused.is_none() {
                refused = Some(sig.tool_call_id.clone());
            }
            i += 1;
        }
        proof {
            lemma_admitted_len(all, all.len() as int);
        }
    }
    if retryable_failure && !asked && !need_confirm && admitted.len() > 0 {
        let target = match last_id {
            Some(Some(id)) => Some(id),
            _ => last_retryable,
        };
        return match target {
            Some(id) => RetryNudgePlan::Failures { failures: admitted, tool_call_id: id },
            None => RetryNudgePlan::NoNudge,
        };
    }
    if !asked && !need_confirm {
        match refused {
            Some(Some(id)) => return RetryNudgePlan::Exhausted { tool_call_id: id },
            _ => {},
        }
    }
    RetryNudgePlan::NoNudge
}

/// How a batch ends once its results are in.
#[derive(Debug, Clone, Copy, PartialEq, Eq, Structural)]
pub enum BatchExit {
    /// Cancelled mid-batch: exit at the pre-batch branch point.
    Cancelled,
    /// Pause for confirmation (before any ask); `stash_ask` keeps the
    /// batch's questions for the resume.
    ConfirmPause { stash_ask: bool },
    /// Pause for the user's answer.
    AskPause,
    /// Check the session status, then continue the run.
    Boundary,
}

/// The end of a batch: cancellation first, a confirmation before an ask.
pub fn batch_exit(cancelled: bool, need_confirm: bool, asked: bool) -> (r: BatchExit)
    ensures
        r == if cancelled {
            BatchExit::Cancelled
        } else if need_confirm {
            BatchExit::ConfirmPause { stash_ask: asked }
        } else if asked {
            BatchExit::AskPause
        } else {
            BatchExit::Boundary
        },
{
    if cancelled {
        BatchExit::Cancelled
    } else if need_confirm {
        BatchExit::ConfirmPause { stash_ask: asked }
    } else if asked {
        BatchExit::AskPause
    } else {
        BatchExit::Boundary
    }
}

/// Results are committed now unless the batch waits for a confirmation
/// (then they are carried to the resume); a cancelled batch commits what it
/// has.
pub fn commit_results_now(cancelled: bool, need_confirm: bool) -> (r: bool)
    ensures
        r == (cancelled || !need_confirm),
{
    cancelled || !need_confirm
}

/// A normal batch is checkpointed after its results; ask and confirm
/// batches leave it to their pause snapshot.
pub fn checkpoint_after_results(need_confirm: bool, asked: bool) -> (r: bool)
    ensures
        r == (!need_confirm && !asked),
{
    !need_confirm && !asked
}

/// What the executor returned for one call.
pub enum ExecutionResult {
    /// The tool ran: its rendered observation, success flag, outcome and
    /// tool-owned signals.
    Ran {
        observation: String,
        success: bool,
        outcome: ToolExecutionOutcome,
        ask_question: Option<String>,
        ask_options: Vec<String>,
        notify_title: Option<String>,
        notify_body: Option<String>,
    },
    /// The step could not be executed; a failure to persist the step leaves
    /// its effect unknown.
    Errored { message: String, persistence_error: bool },
}

/// Normalize one execution into the batch's result for the call.
pub fn completed_from_execution(action: Action, step_id: String, action_index: u32, result: ExecutionResult) -> (r:
    CompletedTool)
    ensures
        r.action == action,
        r.tool_name@ == action.tool_name@,
        r.step_id == step_id,
        r.action_index == action_index,
        match result {
            ExecutionResult::Ran {
                observation,
                success,
                outcome,
                ask_question,
                ask_options,
                notify_title,
                notify_body,
            } => {
                &&& r.step_result == observation
                &&& r.is_error == !success
                &&& r.outcome == outcome
                &&& r.ask_question == ask_question
                &&& r.ask_options == ask_options
                &&& r.notify_title == notify_title
                &&& r.notify_body == notify_body
            },
            ExecutionResult::Errored { message, persistence_error } => {
                &&& r.step_result == message
                &&& r.is_error
                &&& r.outcome == if persistence_error {
                    ToolExecutionOutcome::TimedOutUnknown
                } else {
                    ToolExecutionOutcome::Failed
                }
                &&& r.ask_question is None
                &&& r.ask_options@.len() == 0
                &&& r.notify_title is None
                &&& r.notify_body is None
            },
        },
{
    let tool_name = action.tool_name.clone();
    match result {
        ExecutionResult::Ran { observation, success, outcome, ask_question, ask_options, notify_title, notify_body } => {
            CompletedTool {
                action,
                tool_name,
                step_result: observation,
                is_error: !success,
                outcome,
                ask_question,
                ask_options,
                notify_title,
                notify_body,
                step_id,
                action_index,
            }
        },
        ExecutionResult::Errored { message, persistence_error } => {
            CompletedTool {
                action,
                tool_name,
                step_result: message,
                is_error: true,
                outcome: if persistence_error {
                    ToolExecutionOutcome::TimedOutUnknown
                } else {
                    ToolExecutionOutcome::Failed
                },
                ask_question: None,
                ask_options: Vec::new(),
                notify_title: None,
                notify_body: None,
                step_id,
                action_index,
            }
        },
    }
}

/// Status after an `ask`: a reply that arrived while the batch ran returns
/// the session to `Pending`; otherwise it waits for the answer.
pub fn ask_pause_status(has_answer: bool) -> (r: SessionStatus)
    ensures
        r == if has_answer {
            SessionStatus::Pending
        } else {
            SessionStatus::PausedAwaitingAnswer
        },
{
    if has_answer {
        SessionStatus::Pending
    } else {
        SessionStatus::PausedAwaitingAnswer
    }
}

} // verus!
