use haven_react::metrics::{bucket_bound, bucket_index, percentile, Counter, Phase, ReActMetrics};

#[test]
fn snapshots_expose_bounded_percentiles_and_counts() {
    let mut metrics = ReActMetrics::new();
    metrics.observe(Phase::LlmStream, 3);
    metrics.observe(Phase::LlmStream, 1_200);
    metrics.increment(Counter::StreamChunks);
    metrics.increment(Counter::ChunkDrops);

    let snapshot = metrics.snapshot();
    let stream = snapshot.phase(Phase::LlmStream);
    assert_eq!(stream.count, 2);
    assert_eq!(stream.total_ms, 1_203);
    assert_eq!(stream.p50_ms, 5);
    assert_eq!(stream.p95_ms, 2_500);
    assert_eq!(snapshot.counters.stream_chunks, 1);
    assert_eq!(snapshot.counters.chunk_drops, 1);
}

#[test]
fn phase_timer_preserves_correlation_without_recording_content() {
    let mut metrics = ReActMetrics::new();
    {
        let timer = metrics.start(Phase::Projection, "ses-test", 7, 3, 1_000);
        assert_eq!(timer.session_id, "ses-test");
        assert_eq!(timer.run_id, 7);
        assert_eq!(timer.step_number, 3);
        assert_eq!(timer.finish(&mut metrics, 1_004), 4);
    }
    assert_eq!(metrics.snapshot().phase(Phase::Projection).count, 1);
}

#[test]
fn repeated_recording_is_counted_exactly() {
    let mut metrics = ReActMetrics::new();
    for _ in 0..400 {
        metrics.increment(Counter::TurnStarts);
        metrics.observe(Phase::TokenEstimate, 1);
    }
    let snapshot = metrics.snapshot();
    assert_eq!(snapshot.counters.turn_starts, 400);
    assert_eq!(snapshot.phase(Phase::TokenEstimate).count, 400);
    assert_eq!(snapshot.phase(Phase::TokenEstimate).total_ms, 400);
    assert_eq!(snapshot.phase(Phase::TokenEstimate).p50_ms, 1);
}

#[test]
fn empty_phase_reads_zero() {
    let metrics = ReActMetrics::new();
    let s = metrics.snapshot().phase(Phase::Snapshot);
    assert_eq!((s.count, s.total_ms, s.p50_ms, s.p95_ms), (0, 0, 0, 0));
}

#[test]
fn buckets_take_the_first_bound_at_least_the_sample() {
    assert_eq!(bucket_index(0), 0);
    assert_eq!(bucket_index(1), 0);
    assert_eq!(bucket_index(2), 1);
    assert_eq!(bucket_index(3), 2);
    assert_eq!(bucket_index(1_200), 10);
    assert_eq!(bucket_index(60_000), 14);
    assert_eq!(bucket_index(60_001), 15);
    assert_eq!(bucket_bound(15), u64::MAX);
}

#[test]
fn percentiles_never_decrease_with_rank() {
    let mut buckets = vec![0u64; 16];
    buckets[1] = 3;
    buckets[9] = 5;
    buckets[15] = 2;
    let p50 = percentile(&buckets, 10, 50);
    let p95 = percentile(&buckets, 10, 95);
    assert_eq!(p50, 1_000);
    assert_eq!(p95, u64::MAX);
    assert!(p50 <= p95);
    assert_eq!(percentile(&buckets, 10, 10), 2);
    assert_eq!(percentile(&buckets, 0, 95), 0);
}

#[test]
fn gauge_counts_down() {
    let mut metrics = ReActMetrics::new();
    metrics.increment(Counter::CheckpointPending);
    metrics.increment(Counter::CheckpointPending);
    metrics.decrement(Counter::CheckpointPending);
    assert_eq!(metrics.snapshot().counters.checkpoint_pending, 1);
    assert_eq!(Phase::FirstToken.as_str(), "first_token");
    assert_eq!(Phase::Snapshot.index(), 10);
}
