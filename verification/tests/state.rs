use haven_react::state::branch_points_by_step;
use haven_react::state::{BranchPoint, GenerationCounter, InjectSource, ReActState, TranscriptRecord};
use haven_react::types::{CanonicalMessage, ContentPart};

#[test]
fn new_keeps_event_projection_and_branch_index_together() {
    let mut generations = GenerationCounter::new();
    let canonical = vec![CanonicalMessage::user_text("hello".to_string())];
    let branch_points = vec![BranchPoint {
        event_cursor: 2,
        step_number: 3,
        last_msg_at: None,
    }];

    let mut state = ReActState::new(Vec::new(), canonical, branch_points, &mut generations);

    assert_eq!(state.events().len(), 0);
    assert_eq!(state.canonical().len(), 1);
    assert!(state.has_branch_point(3));
    assert!(state.take_retry_nudge().is_none());
}

#[test]
fn compaction_replaces_transcript_and_invalidates_branch_points() {
    let mut generations = GenerationCounter::new();
    let mut state = ReActState::new(Vec::new(), Vec::new(), Vec::new(), &mut generations);
    state.insert_branch_point(BranchPoint {
        event_cursor: 1,
        step_number: 1,
        last_msg_at: None,
    });

    let record = TranscriptRecord::CompactSummary {
        summary: "summary".into(),
        tokens_before: 100,
        tokens_after: 20,
        episode_id: "msg-summary".into(),
    };
    state.replace_with_compaction(record, vec![CanonicalMessage::user_text("recent".to_string())]);

    assert_eq!(state.events().len(), 1);
    assert_eq!(state.canonical().len(), 1);
    assert!(state.branch_points().is_empty());
}

#[test]
fn retry_nudge_is_staged_without_mutating_the_canonical_projection() {
    let mut generations = GenerationCounter::new();
    let canonical = vec![CanonicalMessage::user_text("hello".to_string())];
    let mut state = ReActState::new(Vec::new(), canonical, Vec::new(), &mut generations);

    state.stage_retry_nudge("call-1".into(), "retry safely".into());

    assert_eq!(state.canonical().len(), 1);
    assert!(matches!(
        state.canonical()[0].content.as_slice(),
        [ContentPart::Text(text)] if text == "hello"
    ));
    let nudge = state.take_retry_nudge().expect("staged retry nudge");
    assert_eq!(nudge.tool_call_id, "call-1");
    assert_eq!(nudge.text, "retry safely");
    assert!(state.take_retry_nudge().is_none());
}

#[test]
fn rebuilt_state_gets_a_new_generation_even_when_revision_restarts_at_zero() {
    let mut generations = GenerationCounter::new();
    let first = ReActState::new(
        Vec::new(),
        vec![CanonicalMessage::user_text("first".to_string())],
        Vec::new(),
        &mut generations,
    );
    let second = ReActState::new(
        Vec::new(),
        vec![CanonicalMessage::user_text("second".to_string())],
        Vec::new(),
        &mut generations,
    );

    assert_eq!(first.canonical_revision(), 0);
    assert_eq!(second.canonical_revision(), 0);
    assert_ne!(first.canonical_generation(), second.canonical_generation());
}

#[test]
fn applied_injections_are_remembered_by_message_id() {
    let mut generations = GenerationCounter::new();
    let existing = TranscriptRecord::UserInject {
        step_number: 1,
        source: InjectSource::FollowUp,
        text: "already projected".to_string(),
        message_id: Some("msg-existing".to_string()),
    };
    let mut state = ReActState::new(vec![existing], Vec::new(), Vec::new(), &mut generations);
    assert!(state.has_applied_inject("msg-existing"));
    assert!(!state.has_applied_inject("msg-new"));
    state.push_event(TranscriptRecord::UserInject {
        step_number: 2,
        source: InjectSource::ActionResult,
        text: "result".to_string(),
        message_id: Some("msg-new".to_string()),
    });
    assert!(state.has_applied_inject("msg-new"));
    assert_eq!(state.media_event_indices().as_slice(), &[0usize, 1]);
}

#[test]
fn branch_point_of_a_step_is_replaced() {
    let mut generations = GenerationCounter::new();
    let mut state = ReActState::new(Vec::new(), Vec::new(), Vec::new(), &mut generations);
    state.insert_branch_point(BranchPoint { event_cursor: 1, step_number: 4, last_msg_at: None });
    state.insert_branch_point(BranchPoint {
        event_cursor: 9,
        step_number: 4,
        last_msg_at: Some("t".to_string()),
    });
    assert_eq!(state.branch_points().len(), 1);
    assert_eq!(state.branch_points()[0].event_cursor, 9);
    state.mark_canonical_changed();
    assert_eq!(state.canonical_revision(), 1);
}

#[test]
fn branch_points_are_ordered_by_step_for_the_timeline() {
    let bp = |cursor: u64, step: u32| BranchPoint { event_cursor: cursor, step_number: step, last_msg_at: None };
    let sorted = branch_points_by_step(vec![bp(30, 3), bp(10, 1), bp(20, 2), bp(11, 1)]);
    let steps: Vec<u32> = sorted.iter().map(|b| b.step_number).collect();
    assert_eq!(steps, vec![1, 1, 2, 3]);
    let mut cursors: Vec<u64> = sorted.iter().map(|b| b.event_cursor).collect();
    cursors.sort();
    assert_eq!(cursors, vec![10, 11, 20, 30]);
    assert!(branch_points_by_step(Vec::new()).is_empty());
}

#[test]
fn branch_point_is_taken_at_the_end_of_the_transcript() {
    let mut generations = GenerationCounter::new();
    let inject = TranscriptRecord::UserInject {
        step_number: 1,
        source: InjectSource::FollowUp,
        text: "hi".to_string(),
        message_id: None,
    };
    let state = ReActState::new(vec![inject], Vec::new(), Vec::new(), &mut generations);
    let bp = state.branch_point_here(3, Some("t".to_string()));
    assert_eq!(bp.event_cursor, 1);
    assert_eq!(bp.step_number, 3);
    assert_eq!(bp.last_msg_at.as_deref(), Some("t"));
}
