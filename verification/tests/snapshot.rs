use haven_react::snapshot::{
    needs_failed_marker_retry, recovery_block, recovery_marker_phase, recovery_not_started,
    recovery_result, RecoveryPersistenceResult, RecoveryPhases, SnapshotStore,
};

#[test]
fn recovery_discards_scratch_only_after_every_projection_succeeds() {
    assert!(RecoveryPersistenceResult::Persisted.should_discard());
    assert!(!RecoveryPersistenceResult::Failed {
        branch_point: false,
        partial_messages: true,
        recovery_snapshot: true,
        projection: true,
        failure_marker: false,
    }
    .should_discard());
}

#[test]
fn should_write_first_step_always() {
    let store = SnapshotStore::default();
    assert!(store.should_write("s", 1, false));
    assert!(store.should_write("s", 100, false));
}

#[test]
fn throttle_skips_until_interval() {
    let mut store = SnapshotStore::default();
    assert!(store.on_step_boundary("s", 1, false));
    assert!(!store.should_write("s", 2, false));
    assert!(!store.should_write("s", 3, false));
    assert!(store.should_write("s", 4, false));
    assert!(store.on_step_boundary("s", 4, false));
    assert!(!store.should_write("s", 5, false));
    assert!(!store.should_write("s", 6, false));
    assert!(store.should_write("s", 7, false));
}

#[test]
fn force_bypasses_throttle() {
    let mut store = SnapshotStore::default();
    assert!(store.on_step_boundary("s", 1, false));
    assert!(!store.should_write("s", 2, false));
    assert!(store.should_write("s", 2, true));
    assert!(store.on_step_boundary("s", 2, true));
    assert_eq!(store.last_written("s"), Some(2));
}

#[test]
fn clear_session_resets_throttle() {
    let mut store = SnapshotStore::default();
    assert!(store.on_step_boundary("s", 1, false));
    store.clear_session("s");
    assert!(store.should_write("s", 2, false));
}

#[test]
fn sessions_throttled_independently() {
    let mut store = SnapshotStore::default();
    assert!(store.on_step_boundary("a", 1, false));
    assert!(store.on_step_boundary("b", 1, false));
    assert!(!store.should_write("a", 2, false));
    assert!(!store.should_write("b", 2, false));
    assert!(store.on_step_boundary("a", 4, false));
    assert!(!store.should_write("b", 3, false));
}

#[test]
fn tool_result_checkpoint_is_not_throttled_by_mid_run_interval() {
    let mut store = SnapshotStore::default();
    assert!(store.on_step_boundary("s", 1, false));
    assert!(!store.should_write("s", 2, false));
    assert!(store.should_write("s", 2, true));
}

#[test]
fn skipped_boundary_records_nothing() {
    let mut store = SnapshotStore::new();
    assert!(store.on_step_boundary("s", 5, false));
    assert!(!store.on_step_boundary("s", 6, false));
    assert_eq!(store.last_written("s"), Some(5));
    store.record_write("s", 6);
    assert_eq!(store.last_written("s"), Some(6));
}

fn phases(b: bool, m: bool, p: bool, s: bool) -> RecoveryPhases {
    RecoveryPhases {
        branch_point: b,
        partial_messages: m,
        projection: p,
        recovery_snapshot: s,
    }
}

#[test]
fn recovery_persists_only_when_every_phase_and_marker_commit() {
    let all = phases(true, true, true, true);
    assert_eq!(recovery_marker_phase(&all), "committed");
    assert_eq!(recovery_result(&all, true, false), RecoveryPersistenceResult::Persisted);
    assert!(needs_failed_marker_retry(&all, false));
    assert_eq!(
        recovery_result(&all, false, true),
        RecoveryPersistenceResult::Failed {
            branch_point: true,
            partial_messages: true,
            recovery_snapshot: true,
            projection: true,
            failure_marker: true,
        }
    );
    let partial = phases(true, false, true, true);
    assert_eq!(recovery_marker_phase(&partial), "failed");
    assert!(!needs_failed_marker_retry(&partial, true));
    assert_eq!(
        recovery_result(&partial, true, false),
        RecoveryPersistenceResult::Failed {
            branch_point: true,
            partial_messages: false,
            recovery_snapshot: true,
            projection: true,
            failure_marker: true,
        }
    );
    assert!(!recovery_not_started(true).should_discard());
}

#[test]
fn recovery_blocks_are_trimmed_and_skip_blank_text() {
    assert_eq!(recovery_block("  partial answer \n").as_deref(), Some("partial answer"));
    assert_eq!(recovery_block(" \n\t "), None);
    assert_eq!(recovery_block(""), None);
}
