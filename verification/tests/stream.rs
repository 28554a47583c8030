use haven_react::stream::{
    after_compaction, after_compaction_applied, after_primary_call, after_retry, CheckpointMailbox,
    CheckpointRequest, CompactionOutcome, LlmFailure, LlmFailureKind, StallWatchdog, StepCallDecision,
    StreamState,
};

fn failure(kind: LlmFailureKind, message: &str) -> LlmFailure {
    LlmFailure { kind, message: message.to_string() }
}

fn fatal_message(d: StepCallDecision) -> (String, bool) {
    match d {
        StepCallDecision::Fatal { message, via_engine_error } => (message, via_engine_error),
        _ => panic!("expected a fatal decision"),
    }
}

#[test]
fn first_text_checkpoints_then_by_interval_or_size() {
    let mut st = StreamState::new("ses".to_string(), 7, 1_000, 10);
    let first = st.on_text("hello", 100, 5_000).expect("first text checkpoints");
    assert_eq!(first.content, "hello");
    assert_eq!(first.generation, 7);
    assert_eq!(first.session_id, "ses");
    assert!(st.on_text(" w", 200, 5_001).is_none());
    let by_size = st.on_text("orld, more", 300, 5_002).expect("ten new bytes");
    assert_eq!(by_size.content, "hello world, more");
    assert!(st.on_text("!", 400, 5_003).is_none());
    let by_time = st.on_text("?", 1_300, 5_004).expect("interval passed");
    assert_eq!(by_time.content, "hello world, more!?");
    assert_eq!(st.last_chunk_ms, 5_004);
}

#[test]
fn replacement_attempt_resets_partials_and_owes_a_marker() {
    let mut st = StreamState::new("ses".to_string(), 1, 1_000, 10);
    st.on_text("old", 0, 1);
    st.on_reasoning("why", 2);
    st.on_attempt_start(false, 9);
    assert_eq!(st.thought, "old");
    st.on_attempt_start(true, 2);
    assert_eq!(st.thought, "");
    assert_eq!(st.reasoning, "");
    assert_eq!(st.generation, 2);
    assert_eq!(st.last_chunk_ms, 0);
    assert!(st.reset_pending);
    st.reset_marker_delivered();
    assert!(!st.reset_pending);
    assert_eq!(st.on_text("new", 5, 6).map(|r| r.generation), Some(2));
}

#[test]
fn first_token_is_noticed_once() {
    let mut st = StreamState::new("ses".to_string(), 1, 1_000, 10);
    assert!(!st.note_content(Some(""), None));
    assert!(st.note_content(None, Some("thinking")));
    assert!(!st.note_content(Some("text"), None));
}

#[test]
fn mailbox_keeps_only_the_latest_snapshot() {
    let mut mailbox = CheckpointMailbox::new();
    let req = |content: &str| CheckpointRequest {
        session_id: "s".to_string(),
        generation: 3,
        content: content.to_string(),
    };
    assert!(mailbox.submit(req("first")));
    assert!(!mailbox.submit(req("latest")));
    assert_eq!(mailbox.take().map(|r| r.content), Some("latest".to_string()));
    assert!(mailbox.take().is_none());
}

#[test]
fn stall_is_announced_once_per_silent_episode() {
    let mut dog = StallWatchdog::new(1_000);
    assert!(!dog.poll(1_500, 0, 1_000));
    assert!(dog.poll(2_000, 0, 1_000));
    assert!(!dog.poll(9_000, 0, 1_000));
    assert!(!dog.poll(3_000, 2_500, 1_000));
    assert!(dog.poll(3_600, 2_500, 1_000));
    assert!(!dog.poll(9_999, 2_500, 1_000));
}

#[test]
fn primary_call_failures_decide_the_step() {
    assert!(matches!(after_primary_call(None), StepCallDecision::Accept));
    assert!(matches!(
        after_primary_call(Some(failure(LlmFailureKind::ContextLengthExceeded, "too long"))),
        StepCallDecision::Compact
    ));
    assert!(matches!(
        after_primary_call(Some(failure(LlmFailureKind::Cancelled, "x"))),
        StepCallDecision::Cancelled
    ));
    assert_eq!(
        fatal_message(after_primary_call(Some(failure(LlmFailureKind::Other, "503")))),
        ("Model request failed: 503".to_string(), false)
    );
}

#[test]
fn forced_compaction_outcomes_decide_the_step() {
    assert!(matches!(after_compaction(CompactionOutcome::Compacted), StepCallDecision::ApplyCompaction));
    assert_eq!(
        fatal_message(after_compaction(CompactionOutcome::NothingToCompact)),
        ("context length exceeded but compaction failed".to_string(), false)
    );
    assert_eq!(
        fatal_message(after_compaction(CompactionOutcome::Failed(failure(LlmFailureKind::RequestFailed, "400")))),
        ("context length exceeded but compaction failed".to_string(), false)
    );
    assert!(matches!(
        after_compaction(CompactionOutcome::Failed(failure(LlmFailureKind::Cancelled, ""))),
        StepCallDecision::Cancelled
    ));
    assert_eq!(
        fatal_message(after_compaction(CompactionOutcome::Failed(failure(LlmFailureKind::Other, "boom")))),
        ("context length exceeded and compaction failed: boom".to_string(), false)
    );
    assert!(matches!(after_compaction_applied(None), StepCallDecision::Retry));
    assert_eq!(
        fatal_message(after_compaction_applied(Some("disk full".to_string()))),
        ("Failed to persist context compaction: disk full".to_string(), false)
    );
    assert!(matches!(after_retry(None), StepCallDecision::Accept));
    assert_eq!(
        fatal_message(after_retry(Some(failure(LlmFailureKind::ContextLengthExceeded, "still long")))),
        ("Compaction retry also failed: still long".to_string(), true)
    );
}
