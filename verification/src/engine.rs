//! State the ReAct engine keeps across runs and sessions: step limits,
//! context limits, the run counter, and every per-session sidecar, with the
//! clean-up that keeps them bounded when a session finishes.

use vstd::prelude::*;
use crate::hooks::{infer_due_spec, interval_infer_due};
use crate::identity::IdentityMap;
use crate::ids::{IdMinter, dec_seq, decimal};
use crate::keyed::SessionMap;
use crate::lifecycle::{RunBudget, RunBudgetConfig, effective_max_spec};
use crate::metrics::ReActMetrics;
use crate::response_parse::{
    parse_default_model_response, parsed_thought, parsed_actions, extract_pending_ask_question, pending_question,
    PENDING_QUESTION_FALLBACK,
};
use crate::response_policy::{canonical_has_pending_ask, pending_ask_spec};
use crate::tool_batch::{attach_failure_nudge, last_tool_with_id, nudged_parts};
use crate::types::CanonicalMessage;
use crate::sidecars::{ContextWindowCache, EndpointRole, LastMsgAtCache, MessagingState, ToolDefCache, UsageTracker};
use crate::snapshot::{SnapshotStore, write_due};
use crate::state::{BranchPoint, ReActState};
use crate::token::TokenEstimateCache;
use crate::tool_batch::{build_failure_nudge, classify_tool_failure, failure_nudge_spec, classify_failure_spec, FailureKind};
use crate::types::{Action, LlmResponse};

verus! {

/// The integer settings of `[context_limits]` the loop reads.
#[derive(Debug, Clone, Copy, PartialEq, Eq, Structural)]
pub struct ContextLimits {
    /// Window assumed for a model whose window is not configured.
    pub default_context_window: u32,
    /// Tokens kept free for the reply when compacting.
    pub compaction_reserve_tokens: u32,
    /// Retries of a cut-off answer per turn.
    pub cut_off_retries: u32,
    /// Retries of an empty answer per turn.
    pub empty_response_max_retries: u32,
    pub empty_response_retry_delay_ms: u64,
    /// Silence after which a stream is announced as stalled.
    pub stream_stall_warn_delay_ms: u64,
    pub event_chunk_batch_max_bytes: usize,
    pub partial_checkpoint_min_chars: usize,
    pub partial_checkpoint_interval_secs: u64,
    /// Steps between interval fact inferences (0: never).
    pub fact_infer_interval_steps: u32,
}

/// Generic guidance after failed tool calls whose failure is neither
/// environmental nor a usage mistake.
pub const TOOL_FAILURE_DIAGNOSIS: &'static str = "Before retrying, read the exact error message, identify which input or assumption caused it, and change that specifically instead of repeating the same call.";

/// Engine state shared by all runs.
pub struct ReActEngine {
    pub max_steps: u32,
    /// Session-lifetime step cap (`None`: unlimited).
    pub session_max_steps: Option<u32>,
    pub limits: ContextLimits,
    pub run_counter: u64,
    pub current_run_id: u64,
    pub usage: UsageTracker,
    pub tool_defs: ToolDefCache,
    pub last_msg_at: LastMsgAtCache,
    pub token_estimates: TokenEstimateCache,
    pub snapshot_store: SnapshotStore,
    pub context_windows: ContextWindowCache,
    /// Sessions already told that the balanced model took over.
    pub balanced_model: SessionMap<()>,
    pub identity: IdentityMap,
    /// Live run budget per running session.
    pub run_budgets: SessionMap<RunBudget>,
    pub messaging: MessagingState,
    pub metrics: ReActMetrics,
}

impl ReActEngine {
    /// Every sidecar is well formed.
    pub open spec fn wf(&self) -> bool {
        &&& self.usage.wf()
        &&& self.tool_defs.wf()
        &&& self.last_msg_at.wf()
        &&& self.token_estimates.wf()
        &&& self.snapshot_store.wf()
        &&& self.balanced_model.wf()
        &&& self.balanced_model.capacity_spec() == usize::MAX
        &&& self.run_budgets.wf()
        &&& self.run_budgets.capacity_spec() == usize::MAX
        &&& self.messaging.wf()
        &&& self.metrics.wf()
    }

    /// An engine with the given step limit and context limits; no session
    /// state yet. Streaming message ids carry `id_seed`, which the caller
    /// makes unique per process (ids of different processes never meet).
    pub fn new(max_steps: u32, limits: ContextLimits, id_seed: String) -> (r: ReActEngine)
        ensures
            r.identity.seed_v() == id_seed@,
            r.identity.minted_v() == 0,
            forall|k: crate::identity::BlockKey| r.identity.id_of(k) is None,
            r.wf(),
            r.max_steps == max_steps,
            r.session_max_steps is None,
            r.limits == limits,
            r.run_counter == 0,
            r.current_run_id == 0,
            r.usage.totals_map() == Map::<Seq<char>, crate::sidecars::CumulativeUsage>::empty(),
            r.token_estimates.entries_v() == Map::<Seq<char>, crate::token::TokenEstimate>::empty(),
            r.snapshot_store.written() == Map::<Seq<char>, u32>::empty(),
            r.run_budgets@ == Map::<Seq<char>, RunBudget>::empty(),
            r.balanced_model@ == Map::<Seq<char>, ()>::empty(),
    {
        ReActEngine {
            max_steps,
            session_max_steps: None,
            limits,
            run_counter: 0,
            current_run_id: 0,
            usage: UsageTracker::new(),
            tool_defs: ToolDefCache::new(),
            last_msg_at: LastMsgAtCache::new(),
            token_estimates: TokenEstimateCache::new(),
            snapshot_store: SnapshotStore::new(),
            context_windows: ContextWindowCache::new(),
            balanced_model: SessionMap::new(),
            identity: IdentityMap::with_seed(id_seed),
            run_budgets: SessionMap::new(),
            messaging: MessagingState::new(),
            metrics: ReActMetrics::new(),
        }
    }

    /// Hot-reload the context limits; cached context windows are dropped so
    /// the next step resolves against the new default.
    pub fn set_context_limits(&mut self, limits: ContextLimits)
        requires
            old(self).wf(),
        ensures
            final(self).wf(),
            final(self).limits == limits,
            forall|role: EndpointRole| final(self).context_windows.window(role) is None,
            final(self).max_steps == old(self).max_steps,
    {
        self.limits = limits;
        self.context_windows.clear();
    }

    /// Set the per-run step limit.
    pub fn set_max_steps(&mut self, max_steps: u32)
        ensures
            final(self).max_steps == max_steps,
            final(self).session_max_steps == old(self).session_max_steps,
            final(self).limits == old(self).limits,
    {
        self.max_steps = max_steps;
    }

    /// Set the session-lifetime step cap (`None`: unlimited).
    pub fn set_session_max_steps(&mut self, session_max_steps: Option<u32>)
        ensures
            final(self).session_max_steps == session_max_steps,
            final(self).max_steps == old(self).max_steps,
            final(self).limits == old(self).limits,
    {
        self.session_max_steps = session_max_steps;
    }

    /// A new run id: the counter's value, which then advances (wrapping).
    pub fn next_run_id(&mut self) -> (r: u64)
        ensures
            r == old(self).run_counter,
            final(self).run_counter == (old(self).run_counter + 1) % 0x1_0000_0000_0000_0000,
            final(self).current_run_id == old(self).current_run_id,
    {
        let id = self.run_counter;
        self.run_counter = self.run_counter.wrapping_add(1);
        id
    }

    /// Id of the run in progress.
    pub fn current_run_id(&self) -> (r: u64)
        ensures
            r == self.current_run_id,
    {
        self.current_run_id
    }

    /// Record the run in progress.
    pub fn set_current_run_id(&mut self, id: u64)
        ensures
            final(self).current_run_id == id,
            final(self).run_counter == old(self).run_counter,
    {
        self.current_run_id = id;
    }

    /// Step budget of a run starting at `start_step` under the current limits.
    pub fn run_budget_config(&self, start_step: u32) -> (r: RunBudgetConfig)
        ensures
            r.start_step == start_step,
            r.max_steps == self.max_steps,
            r.effective_max == effective_max_spec(self.max_steps, self.session_max_steps, start_step),
    {
        RunBudgetConfig::new(self.max_steps, self.session_max_steps, start_step)
    }

    /// Record the live budget of a running session (mirrored into snapshots).
    pub fn set_run_budget(&mut self, session_id: &str, budget: RunBudget)
        requires
            old(self).wf(),
        ensures
            final(self).wf(),
            final(self).run_budgets@ == old(self).run_budgets@.insert(session_id@, budget),
    {
        self.run_budgets.insert(session_id.to_owned(), budget);
    }

    /// Drop the live budget when the run exits.
    pub fn clear_run_budget(&mut self, session_id: &str)
        requires
            old(self).wf(),
        ensures
            final(self).wf(),
            final(self).run_budgets@ == old(self).run_budgets@.remove(session_id@),
    {
        let _ = self.run_budgets.remove(session_id);
    }

    /// The live budget of a session, if a run is in progress.
    pub fn current_run_budget(&self, session_id: &str) -> (r: Option<RunBudget>)
        requires
            self.wf(),
        ensures
            r == if self.run_budgets@.contains_key(session_id@) {
                Some(self.run_budgets@[session_id@])
            } else {
                None::<RunBudget>
            },
    {
        match self.run_budgets.get(session_id) {
            Some(b) => Some(*b),
            None => None,
        }
    }

    /// Cache the creation time of a session's newest message.
    pub fn note_last_msg_at(&mut self, session_id: &str, created_at: Option<String>)
        requires
            old(self).wf(),
        ensures
            final(self).wf(),
            final(self).last_msg_at.entries() == old(self).last_msg_at.entries().insert(session_id@, created_at),
    {
        self.last_msg_at.set(session_id, created_at);
    }

    /// The message cutoff a branch point may take from the cache: mid-run
    /// (not `force`) the cached newest-message time when one is cached;
    /// `None` means it is read from the database, as every forced write
    /// (pause, error, cancel) does.
    pub fn cached_cutoff(&self, session_id: &str, force: bool) -> (r: Option<Option<String>>)
        requires
            self.wf(),
        ensures
            force ==> r is None,
            !force ==> match r {
                Some(v) => self.last_msg_at.entries().contains_key(session_id@) && v
                    == self.last_msg_at.entries()[session_id@],
                None => !self.last_msg_at.entries().contains_key(session_id@),
            },
    {
        if force {
            None
        } else {
            self.last_msg_at.get(session_id)
        }
    }

    /// Publish the branch point of `step_number`, taken at the end of the
    /// transcript with cutoff `last_msg_at`, once its durable append
    /// succeeded (publishing only then keeps rollback fail-closed); says
    /// whether the snapshot must be written now.
    pub fn publish_branch_point(
        &self,
        state: &mut ReActState,
        session_id: &str,
        step_number: u32,
        last_msg_at: Option<String>,
        force: bool,
    ) -> (snapshot_due: bool)
        requires
            self.wf(),
            old(state).wf(),
        ensures
            final(state).wf(),
            ({
                let bp = BranchPoint {
                    event_cursor: old(state).events_view().len() as u64,
                    step_number,
                    last_msg_at,
                };
                &&& exists|i: int| 0 <= i < final(state).branch_view().len() && final(state).branch_view()[i] == bp
                &&& forall|i: int| 0 <= i < final(state).branch_view().len() ==> (final(state).branch_view()[i]
                    == bp || old(state).branch_view().contains(final(state).branch_view()[i]))
            }),
            forall|i: int|
                0 <= i < old(state).branch_view().len() && old(state).branch_view()[i].step_number != step_number
                    ==> final(state).branch_view().contains(old(state).branch_view()[i]),
            final(state).events_view() == old(state).events_view(),
            final(state).canonical_view() == old(state).canonical_view(),
            snapshot_due == write_due(self.snapshot_store.written(), session_id@, step_number, force),
    {
        let bp = state.branch_point_here(step_number, last_msg_at);
        state.insert_branch_point(bp);
        self.snapshot_store.should_write(session_id, step_number, force)
    }

    /// Close a branch-point checkpoint: a written snapshot resets the write
    /// throttle at this step; a failed one is an error of the branch point.
    pub fn branch_point_checkpointed(&mut self, session_id: &str, step_number: u32, written: bool) -> (r: Result<
        (),
        String,
    >)
        requires
            old(self).wf(),
        ensures
            final(self).wf(),
            written ==> r is Ok && final(self).snapshot_store.written() == old(self).snapshot_store.written().insert(
                session_id@,
                step_number,
            ),
            !written ==> final(self).snapshot_store.written() == old(self).snapshot_store.written() && (r matches Err(
                e,
            ) && e@ == "failed to durably checkpoint branch point for session '"@ + session_id@ + "' at step "@
                + dec_seq(step_number as nat)),
    {
        if written {
            self.snapshot_store.record_write(session_id, step_number);
            Ok(())
        } else {
            let mut e = String::from_str("failed to durably checkpoint branch point for session '");
            e.append(session_id);
            e.append("' at step ");
            let n = decimal(step_number as u64);
            e.append(n.as_str());
            Err(e)
        }
    }

    /// Drop the cached newest-message time (rollback / truncate).
    pub fn clear_last_msg_at(&mut self, session_id: &str)
        requires
            old(self).wf(),
        ensures
            final(self).wf(),
            final(self).last_msg_at.entries() == old(self).last_msg_at.entries().remove(session_id@),
    {
        self.last_msg_at.remove(session_id);
    }

    /// Drop the token-estimate cache entry of a session.
    pub fn reset_token_estimate(&mut self, session_id: &str)
        requires
            old(self).wf(),
        ensures
            final(self).wf(),
            final(self).token_estimates.entries_v() == old(self).token_estimates.entries_v().remove(session_id@),
    {
        self.token_estimates.remove(session_id);
    }

    /// Drop everything kept for a finished session: usage totals, the token
    /// estimate, the snapshot throttle, cached tool definitions, the newest
    /// message time and the inbox poller state. Other sessions keep theirs.
    pub fn reset_cumulative_usage(&mut self, session_id: &str)
        requires
            old(self).wf(),
        ensures
            final(self).wf(),
            final(self).usage.totals_map() == old(self).usage.totals_map().remove(session_id@),
            final(self).usage.epochs_map() == old(self).usage.epochs_map(),
            final(self).token_estimates.entries_v() == old(self).token_estimates.entries_v().remove(session_id@),
            final(self).snapshot_store.written() == old(self).snapshot_store.written().remove(session_id@),
            final(self).tool_defs.entries() == old(self).tool_defs.entries().remove(session_id@),
            final(self).last_msg_at.entries() == old(self).last_msg_at.entries().remove(session_id@),
            final(self).messaging.titles() == old(self).messaging.titles().remove(session_id@),
            final(self).messaging.steps() == old(self).messaging.steps().remove(session_id@),
            final(self).messaging.inflight() == old(self).messaging.inflight().remove(session_id@),
            final(self).run_budgets@ == old(self).run_budgets@,
    {
        self.usage.reset(session_id);
        self.token_estimates.remove(session_id);
        self.snapshot_store.clear_session(session_id);
        self.tool_defs.remove(session_id);
        self.last_msg_at.remove(session_id);
        self.messaging.clear_session(session_id);
    }

    /// After rollback/truncate: clear the in-memory totals and bump the
    /// persist epoch so late writes of discarded calls are ignored.
    pub fn invalidate_usage_after_truncate(&mut self, session_id: &str)
        requires
            old(self).wf(),
        ensures
            final(self).wf(),
            final(self).usage.totals_map() == old(self).usage.totals_map().remove(session_id@),
            final(self).usage.epochs_map() == old(self).usage.epochs_map().insert(
                session_id@,
                if old(self).usage.epoch_of(session_id@) < u64::MAX {
                    (old(self).usage.epoch_of(session_id@) + 1) as u64
                } else {
                    u64::MAX
                },
            ),
    {
        self.usage.invalidate_after_truncate(session_id);
    }

    /// Mark that a session was told the balanced model took over; true only
    /// the first time, so the notice is sent once.
    pub fn try_mark_balanced_model(&mut self, session_id: &str) -> (r: bool)
        requires
            old(self).wf(),
        ensures
            final(self).wf(),
            r == !old(self).balanced_model@.contains_key(session_id@),
            final(self).balanced_model@ == old(self).balanced_model@.insert(session_id@, ()),
    {
        if self.balanced_model.contains_key(session_id) {
            return false;
        }
        self.balanced_model.insert(session_id.to_owned(), ());
        true
    }

    /// Forget the balanced-model notice of a session (after an error).
    pub fn clear_balanced_model(&mut self, session_id: &str)
        requires
            old(self).wf(),
        ensures
            final(self).wf(),
            final(self).balanced_model@ == old(self).balanced_model@.remove(session_id@),
    {
        let _ = self.balanced_model.remove(session_id);
    }

    /// Cached context window of `role` for the router instance `router`.
    pub fn cached_context_window(&self, router: usize, role: EndpointRole) -> (r: Option<u32>)
        ensures
            r == (if self.context_windows.router_spec() == router {
                self.context_windows.window(role)
            } else {
                None::<u32>
            }),
    {
        self.context_windows.get(router, role)
    }

    /// Resolve the window of `role` from what the router configuration gives
    /// (`configured`), falling back to the default window, and cache it.
    pub fn store_context_window(&mut self, router: usize, role: EndpointRole, configured: Option<u32>) -> (r: u32)
        ensures
            r == match configured {
                Some(w) => w,
                None => old(self).limits.default_context_window,
            },
            final(self).context_windows.router_spec() == router,
            final(self).context_windows.window(role) == Some(r),
            final(self).limits == old(self).limits,
    {
        let window = match configured {
            Some(w) => w,
            None => self.limits.default_context_window,
        };
        self.context_windows.insert(router, role, window);
        window
    }

    /// Whether step `step_num` runs interval fact inference.
    pub fn infer_due(&self, step_num: u32) -> (r: bool)
        ensures
            r == infer_due_spec(step_num, self.limits.fact_infer_interval_steps),
    {
        interval_infer_due(step_num, self.limits.fact_infer_interval_steps)
    }

    /// Split a model response into its visible thought and its actions;
    /// calls without an id get one from `ids`.
    pub fn parse_default_model_response(response: &LlmResponse, step_number: u32, ids: &mut IdMinter) -> (r: (
        Option<String>,
        Vec<Action>,
    ))
        ensures
            match r.0 {
                Some(t) => parsed_thought(*response) == Some(t@),
                None => parsed_thought(*response) is None,
            },
            parsed_actions(*response, step_number, old(ids).seed_spec(), r.1@),
            final(ids).seed_spec() == old(ids).seed_spec(),
    {
        parse_default_model_response(response, step_number, ids)
    }

    /// An `ask` result is waiting for the user's answer.
    pub fn canonical_has_pending_ask(canonical: &[CanonicalMessage]) -> (r: bool)
        ensures
            r == pending_ask_spec(canonical@),
    {
        canonical_has_pending_ask(canonical)
    }

    /// The question of the last unanswered `ask`, or a generic prompt.
    pub fn extract_pending_ask_question(canonical: &[CanonicalMessage]) -> (r: String)
        ensures
            r@ == match pending_question(canonical@) {
                Some(q) => q,
                None => PENDING_QUESTION_FALLBACK@,
            },
    {
        extract_pending_ask_question(canonical)
    }

    /// Append a retry nudge onto the failed tool observation.
    pub fn attach_failure_nudge(canonical: &mut Vec<CanonicalMessage>, nudge: &str, failed_tool_call_id: Option<&str>)
        ensures
            final(canonical)@.len() == old(canonical)@.len(),
            match failed_tool_call_id {
                None => final(canonical)@ == old(canonical)@,
                Some(id) => match last_tool_with_id(old(canonical)@, id@) {
                    None => final(canonical)@ == old(canonical)@,
                    Some(j) => {
                        &&& forall|k: int| 0 <= k < old(canonical)@.len() && k != j ==> final(canonical)@[k] == old(canonical)@[k]
                        &&& final(canonical)@[j].role == old(canonical)@[j].role
                        &&& final(canonical)@[j].tool_call_id == old(canonical)@[j].tool_call_id
                        &&& nudged_parts(old(canonical)@[j].content@, nudge@, final(canonical)@[j].content@)
                    },
                },
            },
    {
        attach_failure_nudge(canonical, nudge, failed_tool_call_id)
    }

    /// Classify a tool failure (see [`classify_tool_failure`]).
    pub fn classify_tool_failure(tool_name: &str, err: &str) -> (r: FailureKind)
        ensures
            r == classify_failure_spec(tool_name@, err@),
    {
        classify_tool_failure(tool_name, err)
    }

    /// The retry nudge after failed tool calls, with the generic guidance
    /// [`TOOL_FAILURE_DIAGNOSIS`] as the fallback.
    pub fn build_failure_nudge(failures: &[(String, String)]) -> (r: String)
        ensures
            r@ == failure_nudge_spec(failures@, TOOL_FAILURE_DIAGNOSIS@),
    {
        build_failure_nudge(failures, TOOL_FAILURE_DIAGNOSIS)
    }
}

/// The endpoint role a step is sent to: the router's vision role when the
/// request carries an image (`vision_role` is the router's answer; it falls
/// back to the default model when no image model is configured or image
/// routing is off), else the default model.
pub fn choose_agent_role(has_image: bool, vision_role: EndpointRole) -> (r: EndpointRole)
    ensures
        r == if has_image {
            vision_role
        } else {
            EndpointRole::DefaultModel
        },
{
    if has_image {
        vision_role
    } else {
        EndpointRole::DefaultModel
    }
}

} // verus!
