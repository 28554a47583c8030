use haven_react::json::Json;
use haven_react::response_cycle::{
    CycleDirective, ResponseCycle, RetryKind, RetryResult, RetryVerdict,
};
use haven_react::response_parse::{search_context_outcome, search_round_text, SearchContextOutcome};
use haven_react::response_policy::{classify, AfterLlmAction};
use haven_react::sidecars::CallUsage;
use haven_react::types::{Action, LlmResponse};

fn cycle(empty: u32, cut_used: u32, cut_max: u32) -> ResponseCycle {
    ResponseCycle {
        empty_retries_remaining: empty,
        empty_retry_delay_ms: 250,
        cut_off_retries: cut_used,
        cut_off_retries_max: cut_max,
        pending_ask: false,
    }
}

fn response(text: &str, search: usize) -> LlmResponse {
    LlmResponse {
        text: text.into(),
        tool_calls: Vec::new(),
        finish_reason: None,
        reasoning: Some("why".into()),
        web_search_calls: search,
        thinking_blocks: 0,
    }
}

fn final_answer() -> Action {
    Action { tool_name: "final_answer".into(), tool_input: Json::Null, is_final: true, tool_call_id: None }
}

fn tool_call() -> Action {
    Action { tool_name: "read".into(), tool_input: Json::Null, is_final: false, tool_call_id: Some("c1".into()) }
}

#[test]
fn empty_responses_are_retried_until_the_budget_is_spent() {
    let mut c = cycle(2, 0, 1);
    let empty = response("", 0);
    let mut retries = 0;
    loop {
        let decision = classify(&None, &[], &empty, &[], c.policy_state());
        match c.on_decision(&decision) {
            CycleDirective::Accept => break,
            CycleDirective::Retry { kind, delay_ms, nudge } => {
                assert_eq!(kind, RetryKind::Empty);
                assert_eq!(delay_ms, 250);
                assert!(nudge.is_none());
                retries += 1;
            }
        }
    }
    assert_eq!(retries, 2);
    assert_eq!(c.empty_retries_remaining, 0);
}

#[test]
fn accept_leaves_the_cycle_unchanged() {
    let mut c = cycle(1, 0, 1);
    assert_eq!(c.on_decision(&AfterLlmAction::Accept), CycleDirective::Accept);
    assert_eq!(c.empty_retries_remaining, 1);
    assert_eq!(c.cut_off_retries, 0);
}

#[test]
fn cut_off_retry_counts_and_carries_its_nudge() {
    let mut c = cycle(0, 0, 1);
    let d = c.on_decision(&AfterLlmAction::RetryCutOff { nudge: "continue" });
    assert_eq!(d, CycleDirective::Retry { kind: RetryKind::CutOff, delay_ms: 0, nudge: Some("continue") });
    assert_eq!(c.cut_off_retries, 1);
}

#[test]
fn retry_results_decide_the_candidate() {
    let spent = cycle(0, 1, 1);
    let open = cycle(0, 0, 1);
    assert!(matches!(spent.on_retry_result(RetryKind::CutOff, RetryResult::Payload), RetryVerdict::Replace));
    assert!(matches!(spent.on_retry_result(RetryKind::Empty, RetryResult::NoPayload), RetryVerdict::KeepCandidate));
    assert!(matches!(
        spent.on_retry_result(RetryKind::CutOff, RetryResult::NoPayload),
        RetryVerdict::AcceptCandidate
    ));
    assert!(matches!(
        open.on_retry_result(RetryKind::CutOff, RetryResult::NoPayload),
        RetryVerdict::RetryableError(m) if m == "cut-off retry returned no usable response"
    ));
    assert!(matches!(
        open.on_retry_result(RetryKind::Empty, RetryResult::Failed("timeout".into())),
        RetryVerdict::RetryableError(m) if m == "empty-response retry failed: timeout"
    ));
    assert!(matches!(open.on_retry_result(RetryKind::Empty, RetryResult::Cancelled), RetryVerdict::Cancelled));
}

#[test]
fn search_rounds_without_an_answer_keep_the_turn_open() {
    assert_eq!(
        search_context_outcome(&response("", 0), &[]),
        SearchContextOutcome::Proceed { assistant_already_pushed: false }
    );
    assert_eq!(search_context_outcome(&response("", 2), &[]), SearchContextOutcome::ContinueWithoutTools);
    assert_eq!(
        search_context_outcome(&response("done", 1), &[final_answer()]),
        SearchContextOutcome::Proceed { assistant_already_pushed: true }
    );
    assert_eq!(
        search_context_outcome(&response("", 1), &[final_answer(), tool_call()]),
        SearchContextOutcome::Proceed { assistant_already_pushed: false }
    );
}

#[test]
fn search_round_text_prefers_the_thought_and_drops_reasoning_with_thinking_blocks() {
    let r = response("raw", 1);
    let (text, reasoning) = search_round_text(&Some("thought".into()), &r);
    assert_eq!(text, "thought");
    assert_eq!(reasoning.as_deref(), Some("why"));
    let mut with_blocks = response("raw", 1);
    with_blocks.thinking_blocks = 1;
    let (text, reasoning) = search_round_text(&None, &with_blocks);
    assert_eq!(text, "raw");
    assert!(reasoning.is_none());
}

#[test]
fn usage_without_any_tokens_is_not_reported() {
    let mut u = CallUsage {
        prompt_tokens: 0,
        completion_tokens: 0,
        total_tokens: 0,
        cached_tokens: 7,
        cache_creation_tokens: 0,
        cache_miss_tokens: 0,
        has_cost: false,
    };
    assert!(!u.is_reported());
    u.completion_tokens = 1;
    assert!(u.is_reported());
}
