//! Tool-batch results: plan-ordered completion slots, observation
//! normalization, failure classification and the retry nudge.

use vstd::prelude::*;
use crate::json::{Json, get_str, get_u64, json_text_value, parse_json};
use crate::lifecycle::LoopExit;
use crate::text::{chars_of, seq_contains, str_contains, to_lowercase, lowercase, string_of};
use crate::types::{Action, CanonicalMessage, CanonicalRole, ContentPart};

verus! {

/// Ceiling on tool calls admitted from one assistant response.
pub const MAX_RUNTIME_TOOL_CALLS_PER_BATCH: usize = 64;

/// Ceiling on tool calls running at once.
pub const MAX_CONCURRENT_TOOL_CALLS: usize = 8;

/// Characters of a failed observation kept as failure evidence.
pub const FAILURE_SIGNAL_CHARS: usize = 600;

/// Failure evidence kept per batch.
pub const MAX_FAILURE_SIGNALS: usize = 3;

/// How one tool execution ended.
#[derive(Debug, Clone, Copy, PartialEq, Eq, Structural)]
pub enum ToolExecutionOutcome {
    Succeeded,
    Failed,
    Cancelled,
    /// Timed out or lost: whether it ran is unknown.
    TimedOutUnknown,
}

/// Durable outcome of an action step.
#[derive(Debug, Clone, Copy, PartialEq, Eq, Structural)]
pub enum ActionStepOutcome {
    Completed,
    Failed,
    Cancelled,
    Unknown,
}

/// The execution outcome a durable step outcome stands for.
pub fn tool_execution_outcome(outcome: ActionStepOutcome) -> (r: ToolExecutionOutcome)
    ensures
        r == match outcome {
            ActionStepOutcome::Completed => ToolExecutionOutcome::Succeeded,
            ActionStepOutcome::Failed => ToolExecutionOutcome::Failed,
            ActionStepOutcome::Cancelled => ToolExecutionOutcome::Cancelled,
            ActionStepOutcome::Unknown => ToolExecutionOutcome::TimedOutUnknown,
        },
{
    match outcome {
        ActionStepOutcome::Completed => ToolExecutionOutcome::Succeeded,
        ActionStepOutcome::Failed => ToolExecutionOutcome::Failed,
        ActionStepOutcome::Cancelled => ToolExecutionOutcome::Cancelled,
        ActionStepOutcome::Unknown => ToolExecutionOutcome::TimedOutUnknown,
    }
}

/// A failure the model may retry: the tool ran and failed. Cancelled and
/// unknown outcomes are not retried (the side effect may have happened).
pub fn is_retryable_failure_outcome(outcome: ToolExecutionOutcome) -> (r: bool)
    ensures
        r == (outcome == ToolExecutionOutcome::Failed),
{
    match outcome {
        ToolExecutionOutcome::Failed => true,
        _ => false,
    }
}

/// Result of one tool execution, kept in call order until the batch is
/// materialized.
pub struct CompletedTool {
    pub action: Action,
    pub tool_name: String,
    pub step_result: String,
    pub is_error: bool,
    pub outcome: ToolExecutionOutcome,
    pub ask_question: Option<String>,
    pub ask_options: Vec<String>,
    pub notify_title: Option<String>,
    pub notify_body: Option<String>,
    pub step_id: String,
    pub action_index: u32,
}

impl CompletedTool {
    /// A plain observation: an error unless the outcome is `Succeeded`, with
    /// no ask or notification signals.
    pub fn from_observation(
        action: Action,
        step_id: String,
        action_index: u32,
        step_result: String,
        outcome: ToolExecutionOutcome,
    ) -> (r: CompletedTool)
        ensures
            r.tool_name@ == action.tool_name@,
            r.action == action,
            r.step_result == step_result,
            r.is_error == (outcome != ToolExecutionOutcome::Succeeded),
            r.outcome == outcome,
            r.ask_question is None,
            r.ask_options@.len() == 0,
            r.notify_title is None,
            r.notify_body is None,
            r.step_id == step_id,
            r.action_index == action_index,
    {
        let tool_name = action.tool_name.clone();
        let is_error = match outcome {
            ToolExecutionOutcome::Succeeded => false,
            _ => true,
        };
        CompletedTool {
            action,
            tool_name,
            step_result,
            is_error,
            outcome,
            ask_question: None,
            ask_options: Vec::new(),
            notify_title: None,
            notify_body: None,
            step_id,
            action_index,
        }
    }
}

/// Completion slots of one planned batch, written by plan index.
pub struct ToolBatchResults {
    slots: Vec<Option<CompletedTool>>,
}

/// Number of leading filled slots.
pub open spec fn ready_prefix(slots: Seq<Option<CompletedTool>>) -> nat
    decreases slots.len(),
{
    if slots.len() == 0 || slots[0] is None {
        0
    } else {
        1 + ready_prefix(slots.drop_first())
    }
}

impl ToolBatchResults {
    pub closed spec fn slots_view(&self) -> Seq<Option<CompletedTool>> {
        self.slots@
    }

    /// `len` empty slots.
    pub fn new(len: usize) -> (r: ToolBatchResults)
        ensures
            r.slots_view().len() == len,
            forall|i: int| 0 <= i < len ==> r.slots_view()[i] is None,
    {
        let mut slots: Vec<Option<CompletedTool>> = Vec::new();
        let mut i: usize = 0;
        while i < len
            invariant
                i <= len,
                slots@.len() == i,
                forall|k: int| 0 <= k < i ==> slots@[k] is None,
            decreases len - i,
        {
            slots.push(None);
            i += 1;
        }
        ToolBatchResults { slots }
    }

    /// Fill slot `index` (ignored when out of range).
    pub fn set(&mut self, index: usize, result: CompletedTool)
        ensures
            index < old(self).slots_view().len() ==> final(self).slots_view() == old(
                self,
            ).slots_view().update(index as int, Some(result)),
            index >= old(self).slots_view().len() ==> final(self).slots_view() == old(
                self,
            ).slots_view(),
    {
        if index < self.slots.len() {
            self.slots.set(index, Some(result));
        }
    }

    /// Slot `index` is filled.
    pub fn is_set(&self, index: usize) -> (r: bool)
        ensures
            r == (index < self.slots_view().len() && self.slots_view()[index as int] is Some),
    {
        index < self.slots.len() && self.slots[index].is_some()
    }

    /// Every slot is filled.
    pub fn is_complete(&self) -> (r: bool)
        ensures
            r == forall|i: int| 0 <= i < self.slots_view().len() ==> self.slots_view()[i] is Some,
    {
        let mut i: usize = 0;
        while i < self.slots.len()
            invariant
                i <= self.slots@.len(),
                forall|k: int| 0 <= k < i ==> self.slots@[k] is Some,
            decreases self.slots.len() - i,
        {
            if self.slots[i].is_none() {
                return false;
            }
            i += 1;
        }
        true
    }

    /// Number of leading filled slots: how far projection may proceed.
    pub fn ready_prefix_len(&self) -> (r: usize)
        ensures
            r == ready_prefix(self.slots_view()),
    {
        let mut i: usize = 0;
        proof {
            assert(self.slots@.skip(0) == self.slots@);
        }
        while i < self.slots.len() && self.slots[i].is_some()
            invariant
                i <= self.slots@.len(),
                ready_prefix(self.slots@) == i + ready_prefix(self.slots@.skip(i as int)),
            decreases self.slots.len() - i,
        {
            proof {
                assert(self.slots@.skip(i as int).drop_first() == self.slots@.skip(i + 1));
            }
            i += 1;
        }
        proof {
            if i < self.slots@.len() {
                assert(self.slots@.skip(i as int)[0] == self.slots@[i as int]);
            }
        }
        i
    }

    /// The results in plan order, whatever order they completed in.
    pub fn into_ordered(self) -> (r: Vec<CompletedTool>)
        requires
            forall|i: int| 0 <= i < self.slots_view().len() ==> self.slots_view()[i] is Some,
        ensures
            r@.len() == self.slots_view().len(),
            forall|i: int| 0 <= i < r@.len() ==> Some(#[trigger] r@[i]) == self.slots_view()[i],
    {
        let ghost all = self.slots@;
        proof {
            assert forall|i: int| 0 <= i < all.len() implies all[i] is Some by {
                assert(self.slots_view()[i] is Some);
            }
        }
        let mut rest = self.slots;
        let mut out: Vec<CompletedTool> = Vec::new();
        let total = rest.len();
        while rest.len() > 0
            invariant
                all.len() == total,
                out@.len() + rest@.len() == all.len(),
                rest@ == all.skip(out@.len() as int),
                forall|i: int| 0 <= i < all.len() ==> all[i] is Some,
                forall|i: int| 0 <= i < out@.len() ==> Some(#[trigger] out@[i]) == all[i],
            decreases rest.len(),
        {
            let ghost k = out@.len();
            let slot = rest.remove(0);
            proof {
                assert(slot == all[k as int]);
                assert(rest@ =~= all.skip((k + 1) as int));
            }
            match slot {
                Some(result) => out.push(result),
                None => {},
            }
        }
        out
    }
}

/// Outcome of one tool batch: continue the step loop, or exit the run.
pub enum ToolBatchOutcome {
    Continue,
    Done(LoopExit),
}

/// Failure evidence and ask questions gathered while committing a batch.
pub struct ToolBatchState {
    pub retryable_failure: bool,
    pub failure_signals: Vec<(String, String)>,
    pub last_retryable_failed_tool_call_id: Option<String>,
    pub asked_questions: Vec<String>,
    pub ask_step_ids: Vec<String>,
}

impl ToolBatchState {
    /// Nothing recorded yet.
    pub fn new() -> (r: ToolBatchState)
        ensures
            !r.retryable_failure,
            r.failure_signals@.len() == 0,
            r.last_retryable_failed_tool_call_id is None,
            r.asked_questions@.len() == 0,
            r.ask_step_ids@.len() == 0,
    {
        ToolBatchState {
            retryable_failure: false,
            failure_signals: Vec::new(),
            last_retryable_failed_tool_call_id: None,
            asked_questions: Vec::new(),
            ask_step_ids: Vec::new(),
        }
    }

    /// Record one committed result: a retryable failure sets the flag,
    /// remembers its call id and keeps up to three pieces of evidence (the
    /// first 600 characters of the observation); an ask question is queued
    /// with its step id.
    pub fn record_result(&mut self, result: &CompletedTool)
        ensures
            ({
                let retryable = result.is_error && result.outcome == ToolExecutionOutcome::Failed;
                &&& final(self).retryable_failure == (old(self).retryable_failure || retryable)
                &&& final(self).last_retryable_failed_tool_call_id == if retryable {
                    result.action.tool_call_id
                } else {
                    old(self).last_retryable_failed_tool_call_id
                }
                &&& if retryable && old(self).failure_signals@.len() < MAX_FAILURE_SIGNALS {
                    &&& final(self).failure_signals@.len() == old(self).failure_signals@.len() + 1
                    &&& final(self).failure_signals@.drop_last() == old(self).failure_signals@
                    &&& final(self).failure_signals@.last().0@ == result.tool_name@
                    &&& final(self).failure_signals@.last().1@ == if result.step_result@.len() <= FAILURE_SIGNAL_CHARS {
                        result.step_result@
                    } else {
                        result.step_result@.take(FAILURE_SIGNAL_CHARS as int)
                    }
                } else {
                    final(self).failure_signals@ == old(self).failure_signals@
                }
            }),
            match result.ask_question {
                Some(q) => final(self).asked_questions@ == old(self).asked_questions@.push(q)
                    && final(self).ask_step_ids@ == old(self).ask_step_ids@.push(result.step_id),
                None => final(self).asked_questions@ == old(self).asked_questions@
                    && final(self).ask_step_ids@ == old(self).ask_step_ids@,
            },
    {
        if result.is_error && is_retryable_failure_outcome(result.outcome) {
            self.retryable_failure = true;
            self.last_retryable_failed_tool_call_id = result.action.tool_call_id.clone();
            if self.failure_signals.len() < MAX_FAILURE_SIGNALS {
                let chars = chars_of(result.step_result.as_str());
                let keep = if chars.len() <= FAILURE_SIGNAL_CHARS {
                    chars.len()
                } else {
                    FAILURE_SIGNAL_CHARS
                };
                let mut cap: Vec<char> = Vec::new();
                let mut i: usize = 0;
                while i < keep
                    invariant
                        i <= keep <= chars@.len(),
                        cap@ == chars@.take(i as int),
                    decreases keep - i,
                {
                    cap.push(chars[i]);
                    assert(chars@.take(i + 1) == chars@.take(i as int).push(chars@[i as int]));
                    i += 1;
                }
                proof {
                    if chars@.len() <= FAILURE_SIGNAL_CHARS {
                        assert(chars@.take(keep as int) == chars@);
                    }
                }
                let ghost before = self.failure_signals@;
                self.failure_signals.push((result.tool_name.clone(), string_of(cap.as_slice())));
                proof {
                    assert(self.failure_signals@.drop_last() == before);
                }
            }
        }
        match &result.ask_question {
            Some(q) => {
                self.asked_questions.push(q.clone());
                self.ask_step_ids.push(result.step_id.clone());
            },
            None => {},
        }
    }
}

/// The observation shown in history: the ask question, a notification
/// summary, or the raw observation.
pub open spec fn display_observation_spec(r: CompletedTool) -> Seq<char> {
    match r.ask_question {
        Some(q) => q@,
        None => match r.notify_title {
            Some(title) => {
                let body = match r.notify_body {
                    Some(b) => b@,
                    None => Seq::empty(),
                };
                if body.len() == 0 {
                    r.step_result@
                } else {
                    "Notification sent: "@ + title@ + ": "@ + body
                }
            },
            None => r.step_result@,
        },
    }
}

/// The history observation of a committed result.
pub fn display_observation(r: &CompletedTool) -> (s: String)
    ensures
        s@ == display_observation_spec(*r),
{
    match &r.ask_question {
        Some(q) => q.clone(),
        None => match &r.notify_title {
            Some(title) => {
                let body_empty = match &r.notify_body {
                    Some(b) => b.as_str().is_empty(),
                    None => true,
                };
                if body_empty {
                    r.step_result.clone()
                } else {
                    let mut out = String::from_str("Notification sent: ");
                    out.append(title.as_str());
                    out.append(": ");
                    match &r.notify_body {
                        Some(b) => out.append(b.as_str()),
                        None => {},
                    }
                    out
                }
            },
            None => r.step_result.clone(),
        },
    }
}

/// The call is the agent tool's inbox read.
pub open spec fn is_agent_inbox_call_spec(tool_name: Seq<char>, input: Json) -> bool {
    tool_name == "agent"@ && get_str(input, "operation"@) == Some("inbox"@)
}

/// The `agent` tool called with `operation: inbox`.
pub fn is_agent_inbox_call(tool_name: &str, input: &Json) -> (r: bool)
    ensures
        r == is_agent_inbox_call_spec(tool_name@, *input),
{
    crate::json::eq_str(tool_name, "agent") && match input.get_str("operation") {
        Some(op) => crate::json::eq_str(op.as_str(), "inbox"),
        None => false,
    }
}

/// An inbox read that returned nothing (`count: 0`).
pub open spec fn empty_inbox_output_spec(result: Seq<char>) -> bool {
    match json_text_value(result) {
        Some(v) => get_u64(v, "count"@) == Some(0u64),
        None => false,
    }
}

/// The inbox observation is an empty poll: nothing for the user to see.
pub fn empty_inbox_output(result: &str) -> (r: bool)
    ensures
        r == empty_inbox_output_spec(result@),
{
    match parse_json(result) {
        Some(v) => v.get_u64("count") == Some(0u64),
        None => false,
    }
}

/// The observation card of a result is hidden: a silent action, or an empty
/// inbox poll.
pub fn observation_is_silent(silent_action: bool, tool_name: &str, input: &Json, step_result: &str) -> (r: bool)
    ensures
        r == (silent_action || (is_agent_inbox_call_spec(tool_name@, *input)
            && empty_inbox_output_spec(step_result@))),
{
    silent_action || (is_agent_inbox_call(tool_name, input) && empty_inbox_output(step_result))
}

/// Kind of a tool failure, for shaping the retry nudge.
#[derive(Debug, Clone, Copy, PartialEq, Eq, Structural)]
pub enum FailureKind {
    /// The environment cannot run the approach (missing command, network, path).
    Environmental,
    /// The approach itself is wrong (bad input, parse errors).
    Logic,
    Unknown,
}

/// Markers of an environment problem.
pub open spec fn env_markers() -> Seq<Seq<char>> {
    seq![
        "not recognized"@, "not recognized as an internal or external command"@,
        "不是内部或外部命令"@, "command not found"@, "无法识别"@, "not found"@,
        "cannot be found"@, "cannot find"@, "找不到"@, "no such file"@, "no such directory"@,
        "spawn"@, "program not found"@, "connection"@, "timed out"@, "timeout"@, "refused"@,
        "reset"@, "proxy"@, "unreachable"@, "resolve"@, "dns"@, "ssl"@, "tls"@,
        "certificate"@, "failed to connect"@, "tunnel"@, "network"@, "path does not exist"@,
        "路径不存在"@, "access denied"@, "拒绝访问"@, "无法将"@, "不是有效的"@,
    ]
}

/// Markers of a logic problem.
pub open spec fn logic_markers() -> Seq<Seq<char>> {
    seq![
        "validation failed"@, "missing required"@, "parse error"@, "syntax error"@,
        "unterminated"@, "invalid json"@, "is required for"@,
    ]
}

/// Some marker occurs in `text`.
pub open spec fn any_marker(text: Seq<char>, markers: Seq<Seq<char>>) -> bool {
    exists|k: int| 0 <= k < markers.len() && seq_contains(text, #[trigger] markers[k])
}

/// The file tool reported a malformed edit request.
pub open spec fn files_tool_misuse(tool_name: Seq<char>, err: Seq<char>) -> bool {
    tool_name == "files"@ && (seq_contains(err, "MISSING REQUIRED FIELD"@) || seq_contains(
        err,
        "old_string"@,
    ) || seq_contains(err, "not found in file"@))
}

/// Heuristic classification of a tool failure.
pub open spec fn classify_failure_spec(tool_name: Seq<char>, err: Seq<char>) -> FailureKind {
    if files_tool_misuse(tool_name, err) {
        FailureKind::Logic
    } else if any_marker(lowercase(err), env_markers()) {
        FailureKind::Environmental
    } else if any_marker(lowercase(err), logic_markers()) {
        FailureKind::Logic
    } else {
        FailureKind::Unknown
    }
}

fn env_marker(k: usize) -> (r: &'static str)
    requires
        k < 34,
    ensures
        r@ == env_markers()[k as int],
{
    match k {
        0 => "not recognized",
        1 => "not recognized as an internal or external command",
        2 => "不是内部或外部命令",
        3 => "command not found",
        4 => "无法识别",
        5 => "not found",
        6 => "cannot be found",
        7 => "cannot find",
        8 => "找不到",
        9 => "no such file",
        10 => "no such directory",
        11 => "spawn",
        12 => "program not found",
        13 => "connection",
        14 => "timed out",
        15 => "timeout",
        16 => "refused",
        17 => "reset",
        18 => "proxy",
        19 => "unreachable",
        20 => "resolve",
        21 => "dns",
        22 => "ssl",
        23 => "tls",
        24 => "certificate",
        25 => "failed to connect",
        26 => "tunnel",
        27 => "network",
        28 => "path does not exist",
        29 => "路径不存在",
        30 => "access denied",
        31 => "拒绝访问",
        32 => "无法将",
        _ => "不是有效的",
    }
}

fn logic_marker(k: usize) -> (r: &'static str)
    requires
        k < 7,
    ensures
        r@ == logic_markers()[k as int],
{
    match k {
        0 => "validation failed",
        1 => "missing required",
        2 => "parse error",
        3 => "syntax error",
        4 => "unterminated",
        5 => "invalid json",
        _ => "is required for",
    }
}

/// Classify a tool failure: the model's own tool-usage mistakes and
/// validation/parse errors are logic errors; missing commands, network,
/// path and permission problems are environmental.
pub fn classify_tool_failure(tool_name: &str, err: &str) -> (r: FailureKind)
    ensures
        r == classify_failure_spec(tool_name@, err@),
{
    if crate::json::eq_str(tool_name, "files") && (str_contains(err, "MISSING REQUIRED FIELD")
        || str_contains(err, "old_string") || str_contains(err, "not found in file")) {
        return FailureKind::Logic;
    }
    let lower = to_lowercase(err);
    let e = chars_of(lower.as_str());
    assert(env_markers().len() == 34);
    let mut k: usize = 0;
    while k < 34
        invariant
            k <= 34,
            e@ == lowercase(err@),
            !files_tool_misuse(tool_name@, err@),
            forall|j: int| 0 <= j < k ==> !seq_contains(e@, #[trigger] env_markers()[j]),
        decreases 34 - k,
    {
        let m = chars_of(env_marker(k));
        if crate::text::contains(e.as_slice(), m.as_slice()) {
            assert(seq_contains(e@, env_markers()[k as int]));
            return FailureKind::Environmental;
        }
        k += 1;
    }
    assert(env_markers().len() == 34);
    let mut k: usize = 0;
    while k < 7
        invariant
            k <= 7,
            e@ == lowercase(err@),
            !files_tool_misuse(tool_name@, err@),
            !any_marker(lowercase(err@), env_markers()),
            forall|j: int| 0 <= j < k ==> !seq_contains(e@, #[trigger] logic_markers()[j]),
        decreases 7 - k,
    {
        let m = chars_of(logic_marker(k));
        if crate::text::contains(e.as_slice(), m.as_slice()) {
            assert(seq_contains(e@, logic_markers()[k as int]));
            return FailureKind::Logic;
        }
        k += 1;
    }
    assert(logic_markers().len() == 7);
    FailureKind::Unknown
}

/// Nudge for environmental failures: keep the approach, fix the environment.
pub const ENVIRONMENTAL_NUDGE: &'static str = "The tool failures look ENVIRONMENTAL (missing command / wrong shell syntax / network / path), not logic errors. Do NOT abandon your approach. Diagnose the environment first: verify the command exists in the shell you chose (cmd vs PowerShell syntax differs; `&&` only works in cmd), check network/proxy/endpoints, fix paths and prerequisites. Switching tools (e.g. curl -> aria2) or shells is an environment fix, not a change of approach — keep the same approach and retry.";

/// Nudge for logic failures: fix and retry before switching approach.
pub const LOGIC_NUDGE: &'static str = "The previous approach failed with logic errors. Analyze the exact error, fix the specific mistake, and retry. Only consider a completely different approach if the same method fails again after you fixed it.";

/// Prefix of the generic nudge.
pub const GENERIC_NUDGE_PREFIX: &'static str = "The previous approach encountered errors. ";

/// Some failure has the given kind.
pub open spec fn has_failure_kind(failures: Seq<(String, String)>, kind: FailureKind) -> bool {
    exists|i: int| 0 <= i < failures.len() && classify_failure_spec(
        (#[trigger] failures[i]).0@,
        failures[i].1@,
    ) == kind
}

/// The retry nudge after failed tool calls.
pub open spec fn failure_nudge_spec(failures: Seq<(String, String)>, diagnosis: Seq<char>) -> Seq<char> {
    if has_failure_kind(failures, FailureKind::Environmental) {
        ENVIRONMENTAL_NUDGE@
    } else if has_failure_kind(failures, FailureKind::Logic) {
        LOGIC_NUDGE@
    } else {
        GENERIC_NUDGE_PREFIX@ + diagnosis
    }
}

/// Compose the retry nudge after a step whose tool calls failed:
/// environmental failures must not push the model off its approach, logic
/// failures get a fix-and-retry nudge, anything else the generic tool-failure
/// guidance `diagnosis`.
pub fn build_failure_nudge(failures: &[(String, String)], diagnosis: &str) -> (r: String)
    ensures
        r@ == failure_nudge_spec(failures@, diagnosis@),
{
    let mut has_env = false;
    let mut has_logic = false;
    let mut i: usize = 0;
    while i < failures.len()
        invariant
            i <= failures@.len(),
            has_env == exists|j: int| 0 <= j < i && classify_failure_spec(
                (#[trigger] failures@[j]).0@,
                failures@[j].1@,
            ) == FailureKind::Environmental,
            has_logic == exists|j: int| 0 <= j < i && classify_failure_spec(
                (#[trigger] failures@[j]).0@,
                failures@[j].1@,
            ) == FailureKind::Logic,
        decreases failures.len() - i,
    {
        let kind = classify_tool_failure(failures[i].0.as_str(), failures[i].1.as_str());
        match kind {
            FailureKind::Environmental => has_env = true,
            FailureKind::Logic => has_logic = true,
            FailureKind::Unknown => {},
        }
        i += 1;
    }
    if has_env {
        String::from_str(ENVIRONMENTAL_NUDGE)
    } else if has_logic {
        String::from_str(LOGIC_NUDGE)
    } else {
        let mut out = String::from_str(GENERIC_NUDGE_PREFIX);
        out.append(diagnosis);
        out
    }
}

/// Separator between an observation and an appended nudge.
pub const NUDGE_SEPARATOR: &'static str = "\n\n";

/// Index of the last tool message answering `id`.
pub open spec fn last_tool_with_id(msgs: Seq<CanonicalMessage>, id: Seq<char>) -> Option<int>
    decreases msgs.len(),
{
    if msgs.len() == 0 {
        None
    } else if msgs.last().role == CanonicalRole::Tool && (msgs.last().tool_call_id matches Some(t)
        && t@ == id) {
        Some(msgs.len() - 1)
    } else {
        last_tool_with_id(msgs.drop_last(), id)
    }
}

/// Index of the first text part.
pub open spec fn first_text_index(parts: Seq<ContentPart>) -> Option<int>
    decreases parts.len(),
{
    if parts.len() == 0 {
        None
    } else if parts[0] is Text {
        Some(0)
    } else {
        match first_text_index(parts.drop_first()) {
            Some(i) => Some(i + 1),
            None => None,
        }
    }
}

/// The body a failed observation gets once the nudge is attached: the nudge
/// follows the first text part, or becomes a text part of its own.
pub open spec fn nudged_parts(parts: Seq<ContentPart>, nudge: Seq<char>, new_parts: Seq<ContentPart>) -> bool {
    match first_text_index(parts) {
        Some(i) => new_parts.len() == parts.len() && (forall|k: int| 0 <= k < parts.len() && k != i
            ==> new_parts[k] == parts[k]) && (parts[i] matches ContentPart::Text(t) && new_parts[i] matches ContentPart::Text(u)
            && u@ == t@ + NUDGE_SEPARATOR@ + nudge),
        None => new_parts.len() == parts.len() + 1 && new_parts.drop_last() == parts
            && (new_parts.last() matches ContentPart::Text(u) && u@ == nudge),
    }
}

proof fn lemma_first_text_index(parts: Seq<ContentPart>)
    ensures
        first_text_index(parts) matches Some(i) ==> 0 <= i < parts.len() && parts[i] is Text,
    decreases parts.len(),
{
    if parts.len() > 0 && !(parts[0] is Text) {
        lemma_first_text_index(parts.drop_first());
    }
}

fn first_text_position(parts: &Vec<ContentPart>) -> (r: Option<usize>)
    ensures
        match r {
            Some(i) => first_text_index(parts@) == Some(i as int) && i < parts@.len(),
            None => first_text_index(parts@) is None,
        },
{
    let mut i: usize = 0;
    proof {
        assert(parts@.skip(0) == parts@);
    }
    while i < parts.len()
        invariant
            i <= parts@.len(),
            forall|k: int| 0 <= k < i ==> !(parts@[k] is Text),
            first_text_index(parts@) == match first_text_index(parts@.skip(i as int)) {
                Some(j) => Some(j + i),
                None => None::<int>,
            },
        decreases parts.len() - i,
    {
        proof {
            assert(parts@.skip(i as int)[0] == parts@[i as int]);
            assert(parts@.skip(i as int).drop_first() == parts@.skip(i + 1));
        }
        match &parts[i] {
            ContentPart::Text(_) => return Some(i),
            _ => {},
        }
        i += 1;
    }
    None
}

/// Append a retry nudge onto the failed tool observation (the last tool
/// message answering `failed_tool_call_id`). Without an id, or without such
/// a message, nothing changes; no message is ever added, and user messages
/// are never touched.
pub fn attach_failure_nudge(canonical: &mut Vec<CanonicalMessage>, nudge: &str, failed_tool_call_id: Option<&str>)
    ensures
        final(canonical)@.len() == old(canonical)@.len(),
        match failed_tool_call_id {
            None => final(canonical)@ == old(canonical)@,
            Some(id) => match last_tool_with_id(old(canonical)@, id@) {
                None => final(canonical)@ == old(canonical)@,
                Some(j) => {
                    &&& forall|k: int| 0 <= k < old(canonical)@.len() && k != j ==> final(canonical)@[k] == old(canonical)@[k]
                    &&& final(canonical)@[j].role == old(canonical)@[j].role
                    &&& final(canonical)@[j].tool_call_id == old(canonical)@[j].tool_call_id
                    &&& nudged_parts(old(canonical)@[j].content@, nudge@, final(canonical)@[j].content@)
                },
            },
        },
{
    let id = match failed_tool_call_id {
        Some(id) => id,
        None => return,
    };
    let mut i = canonical.len();
    proof {
        assert(canonical@.take(i as int) == canonical@);
    }
    while i > 0
        invariant
            i <= canonical@.len(),
            canonical@ == old(canonical)@,
            failed_tool_call_id == Some(id),
            last_tool_with_id(canonical@.take(i as int), id@) == last_tool_with_id(canonical@, id@),
        decreases i,
    {
        let ghost pre = canonical@.take(i as int);
        i -= 1;
        proof {
            assert(pre.drop_last() == canonical@.take(i as int));
            assert(pre.last() == canonical@[i as int]);
        }
        let matches = canonical[i].role == CanonicalRole::Tool && match &canonical[i].tool_call_id {
            Some(t) => crate::json::eq_str(t.as_str(), id),
            None => false,
        };
        proof {
            if matches {
                assert(last_tool_with_id(pre, id@) == Some(i as int));
            } else {
                assert(last_tool_with_id(pre, id@) == last_tool_with_id(pre.drop_last(), id@));
            }
        }
        if matches {
            let mut msg = canonical.remove(i);
            let mut content = msg.content;
            let ghost old_content = content@;
            match first_text_position(&content) {
                Some(p) => {
                    proof {
                        lemma_first_text_index(old_content);
                    }
                    let old_part = content.remove(p);
                    let new_part = match old_part {
                        ContentPart::Text(t) => {
                            let mut u = t;
                            u.append(NUDGE_SEPARATOR);
                            u.append(nudge);
                            ContentPart::Text(u)
                        },
                        other => other,
                    };
                    content.insert(p, new_part);
                    proof {
                        assert forall|k: int| 0 <= k < old_content.len() && k != p implies content@[k] == old_content[k] by {
                            if k < p {
                            } else {
                            }
                        }
                    }
                },
                None => {
                    content.push(ContentPart::Text(String::from_str(nudge)));
                    proof {
                        assert(content@.drop_last() == old_content);
                    }
                },
            }
            let ghost content_after = content@;
            msg.content = content;
            canonical.insert(i, msg);
            proof {
                assert(canonical@.len() == old(canonical)@.len());
                assert forall|k: int| 0 <= k < old(canonical)@.len() && k != i implies canonical@[k] == old(canonical)@[k] by {}
                assert(last_tool_with_id(old(canonical)@, id@) == Some(i as int));
                assert(canonical@[i as int].role == old(canonical)@[i as int].role);
                assert(canonical@[i as int].tool_call_id == old(canonical)@[i as int].tool_call_id);
                assert(canonical@[i as int].content@ == content_after);
                assert(old(canonical)@[i as int].content@ == old_content);
                assert(nudged_parts(old_content, nudge@, content_after));
            }
            return;
        }
    }
}

/// Observation of a call cancelled before it ran.
pub const CANCELLED_BEFORE_EXECUTION: &'static str = "tool call cancelled before execution";

/// Observation of a cancelled call: the interruption report when it had
/// started, otherwise the not-executed notice.
pub fn cancellation_observation(interrupted_report: String, was_started: bool) -> (r: String)
    ensures
        r@ == if was_started {
            interrupted_report@
        } else {
            CANCELLED_BEFORE_EXECUTION@
        },
{
    if was_started {
        interrupted_report
    } else {
        String::from_str(CANCELLED_BEFORE_EXECUTION)
    }
}

/// Observation of a call the user declined to confirm.
pub open spec fn rejection_observation_spec(tool_name: Seq<char>) -> Seq<char> {
    "The user REJECTED the operation '"@ + tool_name
        + "' (confirmation declined). Do NOT retry it — ask the user what to do instead or choose a different approach."@
}

/// The observation recorded for a call whose confirmation was declined.
pub fn rejection_observation(tool_name: &str) -> (r: String)
    ensures
        r@ == rejection_observation_spec(tool_name@),
{
    let mut out = String::from_str("The user REJECTED the operation '");
    out.append(tool_name);
    out.append(
        "' (confirmation declined). Do NOT retry it — ask the user what to do instead or choose a different approach.",
    );
    out
}

/// The UI identity of a tool call across its action / observation pair:
/// the call id, else the tool name.
pub fn tool_key(a: &Action) -> (r: String)
    ensures
        r@ == match a.tool_call_id {
            Some(id) => id@,
            None => a.tool_name@,
        },
{
    match &a.tool_call_id {
        Some(id) => id.clone(),
        None => a.tool_name.clone(),
    }
}

} // verus!
