//! Decisions of one streamed model call: accumulating the partial output,
//! throttled crash-recovery checkpoints behind a one-slot latest-wins
//! mailbox, the reset marker of a replacement attempt, first-token
//! detection, the stall watchdog, and what a failed call leads to.

use vstd::prelude::*;

verus! {

/// What `str::len` returns for text `s`: the bytes of its UTF-8 encoding.
pub open spec fn str_len(s: Seq<char>) -> usize {
    vstd::utf8::encode_utf8(s).len() as usize
}

/// `now - then` on a clock reading, 0 if the clock went back.
pub open spec fn since(then: u64, now: u64) -> u64 {
    if now >= then {
        (now - then) as u64
    } else {
        0
    }
}

/// A checkpoint is due on the first text of an attempt, then once the
/// interval passed or enough new bytes accumulated.
pub open spec fn checkpoint_due(
    last_at: Option<u64>,
    last_len: usize,
    now_ms: u64,
    len: usize,
    interval_ms: u64,
    min_chars: usize,
) -> bool {
    match last_at {
        None => true,
        Some(t) => since(t, now_ms) >= interval_ms || (if len >= last_len {
            len - last_len
        } else {
            0
        }) >= min_chars,
    }
}

/// A partial-output snapshot to write for crash recovery. The generation
/// is captured before the write is handed off; a write of an outdated
/// generation is dropped by the store.
pub struct CheckpointRequest {
    pub session_id: String,
    pub generation: u64,
    pub content: String,
}

/// Partial output and bookkeeping of one streamed call.
pub struct StreamState {
    pub session_id: String,
    /// Accumulated answer text.
    pub thought: String,
    /// Accumulated reasoning text.
    pub reasoning: String,
    /// Clock reading of the last checkpoint of this attempt.
    pub checkpoint_at: Option<u64>,
    /// Answer length, in bytes, at the last checkpoint.
    pub checkpoint_len: usize,
    /// A replacement attempt began; its reset marker is not delivered yet.
    pub reset_pending: bool,
    /// Some chunk of the call carried content.
    pub first_content_seen: bool,
    /// Wall-clock reading of the last chunk (0: none in this attempt).
    pub last_chunk_ms: u64,
    /// Partial-store generation of the current attempt.
    pub generation: u64,
    pub checkpoint_interval_ms: u64,
    pub checkpoint_min_chars: usize,
}

impl StreamState {
    /// State at the start of a call.
    pub fn new(session_id: String, generation: u64, checkpoint_interval_ms: u64, checkpoint_min_chars: usize) -> (r:
        StreamState)
        ensures
            r.session_id@ == session_id@,
            r.thought@.len() == 0,
            r.reasoning@.len() == 0,
            r.checkpoint_at is None,
            r.checkpoint_len == 0,
            !r.reset_pending,
            !r.first_content_seen,
            r.last_chunk_ms == 0,
            r.generation == generation,
            r.checkpoint_interval_ms == checkpoint_interval_ms,
            r.checkpoint_min_chars == checkpoint_min_chars,
    {
        StreamState {
            session_id,
            thought: String::new(),
            reasoning: String::new(),
            checkpoint_at: None,
            checkpoint_len: 0,
            reset_pending: false,
            first_content_seen: false,
            last_chunk_ms: 0,
            generation,
            checkpoint_interval_ms,
            checkpoint_min_chars,
        }
    }

    /// A provider attempt begins. A replacing attempt discards the previous
    /// partial output, restarts checkpointing and the stall episode under
    /// the new generation, and owes the consumer a reset marker.
    pub fn on_attempt_start(&mut self, replace_output: bool, generation: u64)
        ensures
            !replace_output ==> *final(self) == *old(self),
            replace_output ==> {
                &&& final(self).thought@.len() == 0
                &&& final(self).reasoning@.len() == 0
                &&& final(self).checkpoint_at is None
                &&& final(self).checkpoint_len == 0
                &&& final(self).last_chunk_ms == 0
                &&& final(self).reset_pending
                &&& final(self).generation == generation
                &&& final(self).first_content_seen == old(self).first_content_seen
                &&& final(self).session_id == old(self).session_id
                &&& final(self).checkpoint_interval_ms == old(self).checkpoint_interval_ms
                &&& final(self).checkpoint_min_chars == old(self).checkpoint_min_chars
            },
    {
        if !replace_output {
            return;
        }
        self.generation = generation;
        self.thought = String::new();
        self.reasoning = String::new();
        self.checkpoint_at = None;
        self.checkpoint_len = 0;
        self.last_chunk_ms = 0;
        self.reset_pending = true;
    }

    /// Notes a chunk; true when it is the call's first with content (the
    /// first token).
    pub fn note_content(&mut self, text: Option<&str>, reasoning: Option<&str>) -> (r: bool)
        ensures
            r == (!old(self).first_content_seen && ((text matches Some(t) && t@.len() > 0) || (
            reasoning matches Some(t) && t@.len() > 0))),
            final(self).first_content_seen == (old(self).first_content_seen || r),
            final(self).thought == old(self).thought,
            final(self).reasoning == old(self).reasoning,
            final(self).reset_pending == old(self).reset_pending,
            final(self).checkpoint_at == old(self).checkpoint_at,
            final(self).checkpoint_len == old(self).checkpoint_len,
            final(self).last_chunk_ms == old(self).last_chunk_ms,
            final(self).generation == old(self).generation,
    {
        let has_text = match text {
            Some(t) => !t.is_empty(),
            None => false,
        };
        let has_reasoning = match reasoning {
            Some(t) => !t.is_empty(),
            None => false,
        };
        if (has_text || has_reasoning) && !self.first_content_seen {
            self.first_content_seen = true;
            true
        } else {
            false
        }
    }

    /// The reset marker reached the consumer; deltas may flow again.
    pub fn reset_marker_delivered(&mut self)
        ensures
            !final(self).reset_pending,
            final(self).thought == old(self).thought,
            final(self).reasoning == old(self).reasoning,
            final(self).first_content_seen == old(self).first_content_seen,
            final(self).checkpoint_at == old(self).checkpoint_at,
            final(self).checkpoint_len == old(self).checkpoint_len,
            final(self).last_chunk_ms == old(self).last_chunk_ms,
            final(self).generation == old(self).generation,
    {
        self.reset_pending = false;
    }

    /// Appends answer text arriving at `now_ms` (monotonic clock) and
    /// `wall_ms` (wall clock); returns the snapshot to checkpoint when one
    /// is due.
    pub fn on_text(&mut self, t: &str, now_ms: u64, wall_ms: u64) -> (r: Option<CheckpointRequest>)
        ensures
            final(self).thought@ == old(self).thought@ + t@,
            final(self).reasoning == old(self).reasoning,
            final(self).last_chunk_ms == wall_ms,
            final(self).generation == old(self).generation,
            final(self).reset_pending == old(self).reset_pending,
            final(self).first_content_seen == old(self).first_content_seen,
            final(self).session_id == old(self).session_id,
            final(self).checkpoint_interval_ms == old(self).checkpoint_interval_ms,
            final(self).checkpoint_min_chars == old(self).checkpoint_min_chars,
            (r is Some) == checkpoint_due(
                old(self).checkpoint_at,
                old(self).checkpoint_len,
                now_ms,
                str_len(final(self).thought@),
                old(self).checkpoint_interval_ms,
                old(self).checkpoint_min_chars,
            ),
            match r {
                Some(req) => {
                    &&& req.content@ == final(self).thought@
                    &&& req.generation == old(self).generation
                    &&& req.session_id@ == old(self).session_id@
                    &&& final(self).checkpoint_at == Some(now_ms)
                    &&& final(self).checkpoint_len == str_len(final(self).thought@)
                },
                None => final(self).checkpoint_at == old(self).checkpoint_at && final(self).checkpoint_len
                    == old(self).checkpoint_len,
            },
    {
        self.thought.append(t);
        let len = self.thought.as_str().len();
        let due = match self.checkpoint_at {
            None => true,
            Some(at) => now_ms.saturating_sub(at) >= self.checkpoint_interval_ms || len.saturating_sub(
                self.checkpoint_len,
            ) >= self.checkpoint_min_chars,
        };
        self.last_chunk_ms = wall_ms;
        if due {
            self.checkpoint_at = Some(now_ms);
            self.checkpoint_len = len;
            Some(
                CheckpointRequest {
                    session_id: self.session_id.clone(),
                    generation: self.generation,
                    content: self.thought.clone(),
                },
            )
        } else {
            None
        }
    }

    /// Appends reasoning text arriving at wall-clock `wall_ms`.
    pub fn on_reasoning(&mut self, t: &str, wall_ms: u64)
        ensures
            final(self).reasoning@ == old(self).reasoning@ + t@,
            final(self).thought == old(self).thought,
            final(self).last_chunk_ms == wall_ms,
            final(self).checkpoint_at == old(self).checkpoint_at,
            final(self).checkpoint_len == old(self).checkpoint_len,
            final(self).generation == old(self).generation,
            final(self).reset_pending == old(self).reset_pending,
            final(self).first_content_seen == old(self).first_content_seen,
    {
        self.reasoning.append(t);
        self.last_chunk_ms = wall_ms;
    }

    /// A web-search event arrived at wall-clock `wall_ms`: it counts as
    /// provider traffic for the stall watchdog.
    pub fn on_web_search(&mut self, wall_ms: u64)
        ensures
            final(self).last_chunk_ms == wall_ms,
            final(self).thought == old(self).thought,
            final(self).reasoning == old(self).reasoning,
            final(self).checkpoint_at == old(self).checkpoint_at,
            final(self).checkpoint_len == old(self).checkpoint_len,
            final(self).generation == old(self).generation,
            final(self).reset_pending == old(self).reset_pending,
    {
        self.last_chunk_ms = wall_ms;
    }
}

/// One-slot hand-off between the stream and the checkpoint writer: a later
/// snapshot holds all earlier text, so it replaces a pending one.
pub struct CheckpointMailbox {
    pub pending: Option<CheckpointRequest>,
}

impl CheckpointMailbox {
    /// Nothing pending.
    pub fn new() -> (r: CheckpointMailbox)
        ensures
            r.pending is None,
    {
        CheckpointMailbox { pending: None }
    }

    /// Publishes `request`; true when the slot was empty (the pending
    /// gauge goes up only then).
    pub fn submit(&mut self, request: CheckpointRequest) -> (r: bool)
        ensures
            r == (old(self).pending is None),
            final(self).pending == Some(request),
    {
        let was_empty = self.pending.is_none();
        self.pending = Some(request);
        was_empty
    }

    /// Takes the pending request for writing.
    pub fn take(&mut self) -> (r: Option<CheckpointRequest>)
        ensures
            r == old(self).pending,
            final(self).pending is None,
    {
        self.pending.take()
    }
}

/// Watchdog announcing a silent provider once per silent episode.
pub struct StallWatchdog {
    /// Wall-clock reading when the call was created (the anchor before any
    /// chunk arrived).
    pub created_ms: u64,
    /// Chunk anchor of the last announcement (`u64::MAX`: none yet).
    pub emitted_anchor: u64,
}

/// An announcement is due: the provider has been silent for the delay since
/// the last chunk (or since the call began), and this silence was not
/// announced yet.
pub open spec fn stall_due(created_ms: u64, emitted_anchor: u64, now_ms: u64, last_chunk_ms: u64, delay_ms: u64) -> bool {
    let base = if last_chunk_ms == 0 {
        created_ms
    } else {
        last_chunk_ms
    };
    since(base, now_ms) >= delay_ms && last_chunk_ms != emitted_anchor
}

impl StallWatchdog {
    /// Watchdog of a call created at `created_ms`.
    pub fn new(created_ms: u64) -> (r: StallWatchdog)
        ensures
            r.created_ms == created_ms,
            r.emitted_anchor == u64::MAX,
    {
        StallWatchdog { created_ms, emitted_anchor: u64::MAX }
    }

    /// One poll: whether to announce a stall now.
    pub fn poll(&mut self, now_ms: u64, last_chunk_ms: u64, delay_ms: u64) -> (r: bool)
        ensures
            r == stall_due(old(self).created_ms, old(self).emitted_anchor, now_ms, last_chunk_ms, delay_ms),
            final(self).created_ms == old(self).created_ms,
            final(self).emitted_anchor == if r {
                last_chunk_ms
            } else {
                old(self).emitted_anchor
            },
    {
        let base = if last_chunk_ms == 0 {
            self.created_ms
        } else {
            last_chunk_ms
        };
        if now_ms.saturating_sub(base) >= delay_ms && last_chunk_ms != self.emitted_anchor {
            self.emitted_anchor = last_chunk_ms;
            true
        } else {
            false
        }
    }
}

/// Law: a silent episode is announced at most once — once announced, no
/// poll announces again until a new chunk moves the anchor.
pub proof fn stall_announced_once(created_ms: u64, anchor: u64, now_ms: u64, delay_ms: u64)
    ensures
        !stall_due(created_ms, anchor, now_ms, anchor, delay_ms),
{
}

/// How a provider call failed.
#[derive(Debug, Clone, Copy, PartialEq, Eq, Structural)]
pub enum LlmFailureKind {
    /// The request exceeded the model's context window.
    ContextLengthExceeded,
    /// The session was cancelled during the call.
    Cancelled,
    /// The provider rejected the request.
    RequestFailed,
    Other,
}

/// A failed provider call: its kind and its rendered message.
pub struct LlmFailure {
    pub kind: LlmFailureKind,
    pub message: String,
}

/// What the step does after a phase of its model call.
pub enum StepCallDecision {
    /// Use the response.
    Accept,
    /// Force a compaction of the transcript.
    Compact,
    /// Commit the compaction summary, then retry.
    ApplyCompaction,
    /// Stream the compacted transcript again.
    Retry,
    /// Exit silently.
    Cancelled,
    /// Persist the partial output, report `message`, mark the session
    /// failed; `via_engine_error` also drops the session's per-run state.
    Fatal { message: String, via_engine_error: bool },
}

/// Fatal decision with the given text.
pub open spec fn is_fatal(d: StepCallDecision, message: Seq<char>, via_engine_error: bool) -> bool {
    d matches StepCallDecision::Fatal { message: m, via_engine_error: v } && m@ == message && v
        == via_engine_error
}

/// After the first call: use the response, compact on a context overflow,
/// stop on cancellation, else fail.
pub fn after_primary_call(failure: Option<LlmFailure>) -> (r: StepCallDecision)
    ensures
        match failure {
            None => r is Accept,
            Some(f) => match f.kind {
                LlmFailureKind::ContextLengthExceeded => r is Compact,
                LlmFailureKind::Cancelled => r is Cancelled,
                _ => is_fatal(r, "Model request failed: "@ + f.message@, false),
            },
        },
{
    match failure {
        None => StepCallDecision::Accept,
        Some(f) => match f.kind {
            LlmFailureKind::ContextLengthExceeded => StepCallDecision::Compact,
            LlmFailureKind::Cancelled => StepCallDecision::Cancelled,
            _ => {
                let mut m = String::from_str("Model request failed: ");
                m.append(f.message.as_str());
                StepCallDecision::Fatal { message: m, via_engine_error: false }
            },
        },
    }
}

/// What a forced compaction produced.
pub enum CompactionOutcome {
    Compacted,
    NothingToCompact,
    Failed(LlmFailure),
}

/// After a forced compaction.
pub fn after_compaction(outcome: CompactionOutcome) -> (r: StepCallDecision)
    ensures
        match outcome {
            CompactionOutcome::Compacted => r is ApplyCompaction,
            CompactionOutcome::NothingToCompact => is_fatal(
                r,
                "context length exceeded but compaction failed"@,
                false,
            ),
            CompactionOutcome::Failed(f) => match f.kind {
                LlmFailureKind::RequestFailed => is_fatal(r, "context length exceeded but compaction failed"@, false),
                LlmFailureKind::Cancelled => r is Cancelled,
                _ => is_fatal(r, "context length exceeded and compaction failed: "@ + f.message@, false),
            },
        },
{
    match outcome {
        CompactionOutcome::Compacted => StepCallDecision::ApplyCompaction,
        CompactionOutcome::NothingToCompact => StepCallDecision::Fatal {
            message: String::from_str("context length exceeded but compaction failed"),
            via_engine_error: false,
        },
        CompactionOutcome::Failed(f) => match f.kind {
            LlmFailureKind::RequestFailed => StepCallDecision::Fatal {
                message: String::from_str("context length exceeded but compaction failed"),
                via_engine_error: false,
            },
            LlmFailureKind::Cancelled => StepCallDecision::Cancelled,
            _ => {
                let mut m = String::from_str("context length exceeded and compaction failed: ");
                m.append(f.message.as_str());
                StepCallDecision::Fatal { message: m, via_engine_error: false }
            },
        },
    }
}

/// After committing the compaction summary (`error`: why it failed).
pub fn after_compaction_applied(error: Option<String>) -> (r: StepCallDecision)
    ensures
        match error {
            None => r is Retry,
            Some(e) => is_fatal(r, "Failed to persist context compaction: "@ + e@, false),
        },
{
    match error {
        None => StepCallDecision::Retry,
        Some(e) => {
            let mut m = String::from_str("Failed to persist context compaction: ");
            m.append(e.as_str());
            StepCallDecision::Fatal { message: m, via_engine_error: false }
        },
    }
}

/// After the retry on the compacted transcript: any failure but a
/// cancellation is final.
pub fn after_retry(failure: Option<LlmFailure>) -> (r: StepCallDecision)
    ensures
        match failure {
            None => r is Accept,
            Some(f) => match f.kind {
                LlmFailureKind::Cancelled => r is Cancelled,
                _ => is_fatal(r, "Compaction retry also failed: "@ + f.message@, true),
            },
        },
{
    match failure {
        None => StepCallDecision::Accept,
        Some(f) => match f.kind {
            LlmFailureKind::Cancelled => StepCallDecision::Cancelled,
            _ => {
                let mut m = String::from_str("Compaction retry also failed: ");
                m.append(f.message.as_str());
                StepCallDecision::Fatal { message: m, via_engine_error: true }
            },
        },
    }
}

} // verus!
