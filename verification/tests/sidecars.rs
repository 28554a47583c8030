use haven_react::state::{GenerationCounter, ReActState};
use std::sync::Arc;

use haven_react::engine::{ContextLimits, ReActEngine};
use haven_react::sidecars::{
    CallUsage, ContextWindowCache, CumulativeUsage, EndpointRole, LastMsgAtCache, MessagingState,
    ToolDefCache, UsageTracker, MESSAGING_POLL_EVERY_STEPS, TOOL_DEF_CACHE_CAPACITY,
};
use haven_react::token::{TokenEstimateCache, TOKEN_ESTIMATE_CACHE_CAPACITY};
use haven_react::types::{CanonicalMessage, ContentPart};

fn zero() -> CumulativeUsage {
    CumulativeUsage {
        prompt_tokens: 0,
        completion_tokens: 0,
        total_tokens: 0,
        cached_tokens: 0,
        cache_creation_tokens: 0,
        cache_miss_tokens: 0,
        has_cost: false,
    }
}

fn call(prompt: u32, completion: u32, total: u32) -> CallUsage {
    CallUsage {
        prompt_tokens: prompt,
        completion_tokens: completion,
        total_tokens: total,
        cached_tokens: 0,
        cache_creation_tokens: 0,
        cache_miss_tokens: total,
        has_cost: false,
    }
}

/// Token count used in place of the tokenizer: one token per started group
/// of four characters of text, plus one per message.
fn count_tokens(messages: &[CanonicalMessage], from: usize) -> u32 {
    let mut total = 0u32;
    for m in &messages[from..] {
        total += 1;
        for p in &m.content {
            if let ContentPart::Text(t) = p {
                total += (t.chars().count() as u32 + 3) / 4;
            }
        }
    }
    total
}

#[test]
fn messaging_clear_session_drops_title_cache() {
    let mut poller = MessagingState::new();
    poller.cache_title("ses-a", Some("hello".into()));
    assert_eq!(poller.cached_title("ses-a"), Some(Some("hello".to_string())));
    poller.clear_session("ses-a");
    assert_eq!(poller.cached_title("ses-a"), None);
}

#[test]
fn tool_definition_cache_is_bounded_and_evicts_least_recently_used() {
    let mut cache = ToolDefCache::new();
    for index in 0..TOOL_DEF_CACHE_CAPACITY {
        cache.insert(&format!("ses-{index}"), (0, 0), Arc::new(Vec::new()));
    }
    assert!(cache.get_if_version("ses-0", (0, 0)).is_some());

    cache.insert("ses-overflow", (0, 0), Arc::new(Vec::new()));

    assert!(cache.get_if_version("ses-0", (0, 0)).is_some());
    assert!(cache.get_if_version("ses-overflow", (0, 0)).is_some());
    assert!(cache.get_if_version("ses-1", (0, 0)).is_none());
    assert_eq!(cache.len(), TOOL_DEF_CACHE_CAPACITY);
}

#[test]
fn tool_definitions_are_reused_only_for_the_same_catalog_version() {
    let mut cache = ToolDefCache::new();
    cache.insert("s", (1, 2), Arc::new(Vec::new()));
    assert!(cache.get_if_version("s", (1, 2)).is_some());
    assert!(cache.get_if_version("s", (1, 3)).is_none());
    cache.remove("s");
    assert!(cache.get_if_version("s", (1, 2)).is_none());
}

#[test]
fn token_estimate_cache_is_bounded_and_evicts_least_recently_used() {
    let mut cache = TokenEstimateCache::new();
    for index in 0..TOKEN_ESTIMATE_CACHE_CAPACITY {
        cache.estimate(&format!("ses-{index}"), &[], count_tokens);
    }
    cache.estimate("ses-0", &[], count_tokens);

    cache.estimate("ses-overflow", &[], count_tokens);

    assert_eq!(cache.len(), TOKEN_ESTIMATE_CACHE_CAPACITY);
    assert!(cache.contains("ses-0"));
    assert!(cache.contains("ses-overflow"));
    assert!(!cache.contains("ses-1"));
}

#[test]
fn usage_tracker_invalidate_bumps_epoch_and_clears_map() {
    let mut tracker = UsageTracker::new();
    assert_eq!(tracker.epoch("ses-a"), 0);
    let _ = tracker.record_with_seed("ses-a", call(10, 5, 15), zero());
    tracker.invalidate_after_truncate("ses-a");
    assert_eq!(tracker.epoch("ses-a"), 1);
    let totals = tracker.record_with_seed("ses-a", call(1, 1, 2), zero());
    assert_eq!(totals.total_tokens, 2);
}

#[test]
fn usage_accumulates_on_top_of_the_seed_once() {
    let mut tracker = UsageTracker::new();
    let mut seed = zero();
    seed.total_tokens = 100;
    assert!(!tracker.is_seeded("s"));
    let first = tracker.record_with_seed("s", call(10, 5, 15), seed);
    assert_eq!(first.total_tokens, 115);
    let second = tracker.record_with_seed("s", call(1, 1, 2), seed);
    assert_eq!(second.total_tokens, 117);
    assert_eq!(second.prompt_tokens, 11);
    tracker.reset("s");
    assert!(!tracker.is_seeded("s"));
    assert_eq!(tracker.epoch("s"), 0);
}

#[test]
fn token_estimate_cache_detects_same_length_content_changes() {
    let mut cache = TokenEstimateCache::new();
    let mut messages = vec![CanonicalMessage::user_text("short".to_string())];
    assert_eq!(cache.estimate("ses-a", &messages, count_tokens), count_tokens(&messages, 0));

    messages[0] = CanonicalMessage::user_text(
        "a substantially longer replacement message with different content".to_string(),
    );
    assert_eq!(cache.estimate("ses-a", &messages, count_tokens), count_tokens(&messages, 0));
}

#[test]
fn token_estimate_cache_reuses_valid_prefix_for_appends() {
    let mut cache = TokenEstimateCache::new();
    let mut messages = vec![CanonicalMessage::user_text("first".to_string())];
    let first = cache.estimate("ses-a", &messages, count_tokens);

    messages.push(CanonicalMessage::user_text("second".to_string()));
    let appended = cache.estimate("ses-a", &messages, count_tokens);

    assert_eq!(first, count_tokens(&messages[..1], 0));
    assert_eq!(appended, count_tokens(&messages, 0));
}

#[test]
fn token_estimate_reuses_the_cached_count_for_an_unchanged_transcript() {
    let mut cache = TokenEstimateCache::new();
    let messages = vec![CanonicalMessage::user_text("hello there".to_string())];
    let first = cache.estimate("s", &messages, count_tokens);
    // A counter that would give a different answer proves the cache hit.
    let again = cache.estimate("s", &messages, |_m: &[CanonicalMessage], _k: usize| 999u32);
    assert_eq!(first, again);
    cache.remove("s");
    assert_eq!(cache.estimate("s", &messages, |_m: &[CanonicalMessage], _k: usize| 999u32), 999);
}

#[test]
fn last_message_time_cache_distinguishes_unknown_from_none() {
    let mut cache = LastMsgAtCache::new();
    assert_eq!(cache.get("s"), None);
    cache.set("s", None);
    assert_eq!(cache.get("s"), Some(None));
    cache.set("s", Some("2024-01-01T00:00:00Z".to_string()));
    assert_eq!(cache.get("s"), Some(Some("2024-01-01T00:00:00Z".to_string())));
    cache.remove("s");
    assert_eq!(cache.get("s"), None);
}

#[test]
fn context_windows_are_cached_per_router_instance() {
    let mut cache = ContextWindowCache::new();
    cache.insert(7, EndpointRole::DefaultModel, 128_000);
    assert_eq!(cache.get(7, EndpointRole::DefaultModel), Some(128_000));
    assert_eq!(cache.get(8, EndpointRole::DefaultModel), None);
    assert_eq!(cache.get(7, EndpointRole::ImageModel), None);
    cache.clear();
    assert_eq!(cache.get(7, EndpointRole::DefaultModel), None);
}

#[test]
fn inbox_is_polled_on_notification_or_every_few_steps() {
    let mut st = MessagingState::new();
    for _ in 1..MESSAGING_POLL_EVERY_STEPS {
        assert!(!st.poll_due("s", false));
    }
    assert!(st.poll_due("s", false));
    assert!(st.poll_due("s", true));
    assert!(!st.poll_due("s", false));
    assert!(st.try_begin_heartbeat("s"));
    assert!(!st.try_begin_heartbeat("s"));
    st.end_heartbeat("s");
    assert!(st.try_begin_heartbeat("s"));
}

fn limits() -> ContextLimits {
    ContextLimits {
        default_context_window: 128_000,
        compaction_reserve_tokens: 8_000,
        cut_off_retries: 2,
        empty_response_max_retries: 2,
        empty_response_retry_delay_ms: 500,
        stream_stall_warn_delay_ms: 15_000,
        event_chunk_batch_max_bytes: 4096,
        partial_checkpoint_min_chars: 200,
        partial_checkpoint_interval_secs: 2,
        fact_infer_interval_steps: 5,
    }
}

#[test]
fn reset_cumulative_usage_drops_only_that_session() {
    let mut engine = ReActEngine::new(10, limits(), "test".to_string());
    for s in ["a", "b"] {
        engine.usage.record_with_seed(s, call(1, 1, 2), zero());
        engine.token_estimates.estimate(s, &[], count_tokens);
        engine.snapshot_store.record_write(s, 1);
        engine.tool_defs.insert(s, (0, 0), Arc::new(Vec::new()));
        engine.note_last_msg_at(s, None);
        engine.messaging.cache_title(s, None);
    }
    engine.reset_cumulative_usage("a");
    assert!(!engine.usage.is_seeded("a"));
    assert!(engine.usage.is_seeded("b"));
    assert!(!engine.token_estimates.contains("a"));
    assert!(engine.token_estimates.contains("b"));
    assert_eq!(engine.snapshot_store.last_written("a"), None);
    assert_eq!(engine.snapshot_store.last_written("b"), Some(1));
    assert!(engine.tool_defs.get_if_version("a", (0, 0)).is_none());
    assert!(engine.tool_defs.get_if_version("b", (0, 0)).is_some());
    assert_eq!(engine.last_msg_at.get("a"), None);
    assert_eq!(engine.last_msg_at.get("b"), Some(None));
    assert_eq!(engine.messaging.cached_title("a"), None);
    assert_eq!(engine.messaging.cached_title("b"), Some(None));
}

#[test]
fn engine_context_windows_fall_back_to_the_default_and_reset_on_reload() {
    let mut engine = ReActEngine::new(10, limits(), "test".to_string());
    assert_eq!(engine.cached_context_window(1, EndpointRole::DefaultModel), None);
    assert_eq!(engine.store_context_window(1, EndpointRole::DefaultModel, None), 128_000);
    assert_eq!(engine.store_context_window(1, EndpointRole::ImageModel, Some(32_000)), 32_000);
    assert_eq!(engine.cached_context_window(1, EndpointRole::DefaultModel), Some(128_000));
    let mut reloaded = limits();
    reloaded.default_context_window = 64_000;
    engine.set_context_limits(reloaded);
    assert_eq!(engine.cached_context_window(1, EndpointRole::DefaultModel), None);
    assert_eq!(engine.store_context_window(1, EndpointRole::DefaultModel, None), 64_000);
}

#[test]
fn balanced_model_notice_is_sent_once_per_session() {
    let mut engine = ReActEngine::new(10, limits(), "test".to_string());
    assert!(engine.try_mark_balanced_model("s"));
    assert!(!engine.try_mark_balanced_model("s"));
    engine.clear_balanced_model("s");
    assert!(engine.try_mark_balanced_model("s"));
    assert!(engine.infer_due(5));
    assert!(!engine.infer_due(0));
    assert!(!engine.infer_due(4));
}

#[test]
fn truncate_invalidation_bumps_the_epoch() {
    let mut engine = ReActEngine::new(10, limits(), "test".to_string());
    engine.usage.record_with_seed("s", call(1, 1, 2), zero());
    engine.invalidate_usage_after_truncate("s");
    assert_eq!(engine.usage.epoch("s"), 1);
    assert!(!engine.usage.is_seeded("s"));
}

#[test]
fn a_usage_write_captured_before_a_truncate_is_stale() {
    let mut tracker = UsageTracker::new();
    let captured = tracker.epoch("s");
    assert!(tracker.write_is_current("s", captured));
    tracker.invalidate_after_truncate("s");
    assert!(!tracker.write_is_current("s", captured));
    assert!(tracker.write_is_current("other", 0));
}

#[test]
fn forced_branch_points_always_reread_the_message_cutoff() {
    let mut engine = ReActEngine::new(8, limits(), "test".to_string());
    assert_eq!(engine.cached_cutoff("s", false), None);
    engine.note_last_msg_at("s", Some("2024-01-01".to_string()));
    assert_eq!(engine.cached_cutoff("s", false), Some(Some("2024-01-01".to_string())));
    assert_eq!(engine.cached_cutoff("s", true), None);
}

#[test]
fn a_published_branch_point_is_checkpointed_then_throttled() {
    let engine_limits = limits();
    let mut engine = ReActEngine::new(8, engine_limits, "test".to_string());
    let mut generations = GenerationCounter::new();
    let mut state = ReActState::new(Vec::new(), Vec::new(), Vec::new(), &mut generations);
    assert!(engine.publish_branch_point(&mut state, "s", 3, Some("t".into()), false));
    assert!(state.has_branch_point(3));
    assert_eq!(state.branch_points()[0].event_cursor, 0);
    assert_eq!(engine.branch_point_checkpointed("s", 3, true), Ok(()));
    assert!(!engine.publish_branch_point(&mut state, "s", 4, None, false));
    assert!(engine.publish_branch_point(&mut state, "s", 4, None, true));
    assert_eq!(
        engine.branch_point_checkpointed("s", 4, false),
        Err("failed to durably checkpoint branch point for session 's' at step 4".to_string())
    );
}

#[test]
fn engine_stream_ids_carry_the_callers_seed() {
    let mut engine = ReActEngine::new(8, limits(), "proc-42".to_string());
    let id = engine.identity.ensure_msg_id("s", 1, 0, "thought");
    assert!(id.contains("proc-42"));
}
