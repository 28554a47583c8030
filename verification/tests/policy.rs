use haven_react::engine::ReActEngine;
use haven_react::ids::IdMinter;
use haven_react::json::Json;
use haven_react::response_policy::{
    canonical_has_pending_tool_context, canonical_only_awaiting_background, classify,
    is_suspect_final, looks_cut_off, observation_is_background_wait, AfterLlmAction,
    ResponsePolicyState,
};
use haven_react::types::{Action, CanonicalMessage, ContentPart, FinishReason, LlmResponse, ToolCall};

fn resp(text: &str, finish: Option<FinishReason>) -> LlmResponse {
    resp_calls(text, Vec::new(), finish)
}

fn resp_calls(text: &str, tool_calls: Vec<ToolCall>, finish: Option<FinishReason>) -> LlmResponse {
    LlmResponse {
        text: text.to_string(),
        tool_calls,
        finish_reason: finish,
        reasoning: None,
        web_search_calls: 0,
        thinking_blocks: 0,
    }
}

fn text(s: &str) -> ContentPart {
    ContentPart::Text(s.to_string())
}

fn user(s: &str) -> CanonicalMessage {
    CanonicalMessage::user_text(s.to_string())
}

fn tool(s: &str, id: &str) -> CanonicalMessage {
    CanonicalMessage::tool(vec![text(s)], Some(id.to_string()))
}

fn state(empty_left: u32, cut_used: u32, cut_max: u32, pending_ask: bool) -> ResponsePolicyState {
    ResponsePolicyState {
        empty_retries_remaining: empty_left,
        empty_retry_delay_ms: 10,
        cut_off_retries_used: cut_used,
        cut_off_retries_max: cut_max,
        pending_ask,
    }
}

fn obj(fields: &[(&str, Json)]) -> Json {
    Json::Object(fields.iter().map(|(k, v)| (k.to_string(), json_copy(v))).collect())
}

fn json_copy(v: &Json) -> Json {
    haven_react::json::json_clone(v)
}

fn call(id: &str, name: &str, arguments: Json) -> ToolCall {
    ToolCall {
        id: id.to_string(),
        name: name.to_string(),
        arguments,
    }
}

fn parse(r: &LlmResponse, step: u32) -> (Option<String>, Vec<Action>) {
    let mut ids = IdMinter::new("test".to_string());
    ReActEngine::parse_default_model_response(r, step, &mut ids)
}

#[test]
fn looks_cut_off_detects_mid_sentence_and_planning() {
    assert!(looks_cut_off("让我先查一下，"));
    assert!(looks_cut_off("checking the file,"));
    assert!(looks_cut_off("waiting for result..."));
    assert!(looks_cut_off("然后需要："));
    assert!(looks_cut_off("接下来"));
    assert!(looks_cut_off("确认一下"));
    assert!(!looks_cut_off("好的，已经完成了。"));
    assert!(!looks_cut_off("完成了！"));
    assert!(!looks_cut_off("Done!"));
    assert!(!looks_cut_off("可以吗？"));
    assert!(!looks_cut_off("The answer is 42."));
    assert!(!looks_cut_off("完成"));
}

#[test]
fn looks_cut_off_detects_mid_sentence_endings() {
    assert!(looks_cut_off("让我先查一下，"));
    assert!(looks_cut_off("checking the file,"));
    assert!(looks_cut_off("waiting for result..."));
    assert!(looks_cut_off("然后需要："));
    assert!(!looks_cut_off("好的，已经完成了。"));
    assert!(!looks_cut_off("The answer is 42."));
    assert!(!looks_cut_off("完成"));
}

#[test]
fn looks_cut_off_flags_planning_endings() {
    assert!(looks_cut_off("接下来"));
    assert!(looks_cut_off("确认一下"));
    assert!(!looks_cut_off("好的，已经完成了。"));
    assert!(!looks_cut_off("完成"));
}

fn explicit_final() -> Action {
    Action {
        tool_name: "final_answer".into(),
        tool_input: Json::Null,
        is_final: true,
        tool_call_id: Some("c1".into()),
    }
}

#[test]
fn retries_is_suspect_final_trusts_explicit_tool_calls() {
    let r = resp("done", Some(FinishReason::ToolCalls));
    assert!(!is_suspect_final(&Some("done".into()), &[explicit_final()], &r));
}

#[test]
fn react_is_suspect_final_trusts_explicit_tool_calls() {
    let r = resp("done", Some(FinishReason::ToolCalls));
    assert!(!is_suspect_final(&Some("done".into()), &[explicit_final()], &r));
}

#[test]
fn retries_is_suspect_final_flags_truncated_finish() {
    for finish in [Some(FinishReason::Length), Some(FinishReason::ContentFilter), None] {
        let r = resp("partial text", finish);
        assert!(
            is_suspect_final(&Some("partial text".into()), &[], &r),
            "finish={finish:?} must be suspect"
        );
    }
}

#[test]
fn react_is_suspect_final_flags_truncated_finish() {
    for finish in [Some(FinishReason::Length), Some(FinishReason::ContentFilter), None] {
        let r = resp("partial text", finish);
        assert!(is_suspect_final(&Some("partial text".into()), &[], &r));
    }
}

#[test]
fn retries_is_suspect_final_flags_stop_with_cut_off_text_but_accepts_complete() {
    let r = resp("让我先查一下，", Some(FinishReason::Stop));
    assert!(is_suspect_final(&Some("让我先查一下，".into()), &[], &r));
    let r2 = resp("好的，已经完成了。", Some(FinishReason::Stop));
    assert!(!is_suspect_final(&Some("好的，已经完成了。".into()), &[], &r2));
}

#[test]
fn react_is_suspect_final_flags_stop_with_cut_off_text_but_accepts_complete() {
    let r = resp("让我先查一下，", Some(FinishReason::Stop));
    assert!(is_suspect_final(&Some("让我先查一下，".into()), &[], &r));
    let r2 = resp("好的，已经完成了。", Some(FinishReason::Stop));
    assert!(!is_suspect_final(&Some("好的，已经完成了。".into()), &[], &r2));
}

#[test]
fn retries_is_suspect_final_ignores_empty_thought() {
    let r = resp("", Some(FinishReason::Length));
    assert!(!is_suspect_final(&None, &[], &r));
}

#[test]
fn react_is_suspect_final_ignores_empty_thought() {
    let r = resp("", Some(FinishReason::Length));
    assert!(!is_suspect_final(&None, &[], &r));
}

#[test]
fn is_suspect_final_flags_stop_with_planning_ending() {
    let r = resp("接下来我需要确认一下", Some(FinishReason::Stop));
    assert!(is_suspect_final(&Some("接下来我需要确认一下".into()), &[], &r));
}

#[test]
fn is_suspect_final_accepts_complete_mid_session_text_only_stop() {
    let canonical = vec![user("go"), tool("ok", "c1")];
    let r = resp("好的，已经完成了。", Some(FinishReason::Stop));
    assert!(!is_suspect_final(&Some("好的，已经完成了。".into()), &[], &r));
    assert!(canonical_has_pending_tool_context(&canonical));
}

#[test]
fn retries_is_suspect_final_accepts_text_only_stop_on_fresh_turn() {
    let r = resp("好的，已经完成了。", Some(FinishReason::Stop));
    assert!(!is_suspect_final(&Some("好的，已经完成了。".into()), &[], &r));
}

#[test]
fn react_is_suspect_final_accepts_text_only_stop_on_fresh_turn() {
    let r = resp("好的，已经完成了。", Some(FinishReason::Stop));
    assert!(!is_suspect_final(&Some("好的，已经完成了。".into()), &[], &r));
}

#[test]
fn canonical_has_pending_tool_context_detects_mid_session() {
    let mid = vec![user("go"), tool("ok", "c1")];
    assert!(canonical_has_pending_tool_context(&mid));
    let fresh = vec![user("first"), tool("ok", "c1"), user("second question")];
    assert!(!canonical_has_pending_tool_context(&fresh));
}

#[test]
fn observation_is_background_wait_detects_shell_and_actions() {
    assert!(observation_is_background_wait(
        r#"{"next_step":"end_turn","background":true,"action_id":"act-1","status":"running"}"#
    ));
    assert!(observation_is_background_wait(
        r#"{"background":true,"action_id":"act-1","status":"running"}"#
    ));
    assert!(observation_is_background_wait(
        r#"{"next_step":"end_turn","action_id":"act-1","status":"running","hint":"still running"}"#
    ));
    assert!(!observation_is_background_wait(
        r#"{"action_id":"act-1","status":"running","hint":"still running"}"#
    ));
    assert!(observation_is_background_wait(
        r#"{"next_step":"end_turn","actions":[{"action_id":"act-1","status":"running"},{"action_id":"act-2","status":"running"}]}"#
    ));
    assert!(!observation_is_background_wait(
        r#"{"actions":[{"action_id":"act-1","status":"running"},{"action_id":"act-2","status":"running"}]}"#
    ));
    assert!(!observation_is_background_wait(
        r#"{"background":true,"action_id":"act-1","status":"completed"}"#
    ));
    assert!(!observation_is_background_wait(r#"{"ok":true}"#));
    assert!(!observation_is_background_wait(
        r#"{"background": true, "status": "running", "hint": "trun"#
    ));
    assert!(observation_is_background_wait(
        r#"{"next_step":"end_turn","actions":[{"status":"running"...truncated# [... truncated 9000 chars omitted]"#
    ));
    assert!(!observation_is_background_wait(
        r#"source has "background":true and "status":"running" buried deep [... truncated 12 chars omitted]"#
    ));
    let mut mid_utf8 = String::from(r#"{"ok":true,"note":""#);
    while mid_utf8.len() < 254 {
        mid_utf8.push('x');
    }
    mid_utf8.push('你');
    mid_utf8.push_str(r#"","noise":"buried \"next_step\":\"end_turn\" far away"}"#);
    assert!(mid_utf8.is_char_boundary(254) && !mid_utf8.is_char_boundary(256));
    assert!(!observation_is_background_wait(&mid_utf8));
    let mut wait_mid = String::from(r#"{"next_step":"end_turn","n":""#);
    while wait_mid.len() < 254 {
        wait_mid.push('a');
    }
    wait_mid.push('你');
    wait_mid.push_str("TRUNCATED_NO_CLOSE");
    assert!(!wait_mid.is_char_boundary(256));
    assert!(observation_is_background_wait(&wait_mid));
    let large = format!(r#"{{"output":"{}","shell":"cmd"}}"#, "y".repeat(12_000));
    assert!(!observation_is_background_wait(&large));
}

#[test]
fn is_suspect_final_accepts_end_turn_while_awaiting_background() {
    let canonical = vec![
        user("install deps"),
        tool(
            r#"{"background":true,"action_id":"act-1","status":"running","next_step":"end_turn"}"#,
            "c1",
        ),
    ];
    assert!(canonical_only_awaiting_background(&canonical));
    let r = resp("依赖已在后台安装，完成后会自动继续。", Some(FinishReason::Stop));
    assert!(!is_suspect_final(&Some("依赖已在后台安装，完成后会自动继续。".into()), &[], &r));
}

#[test]
fn is_suspect_final_still_flags_cut_off_while_awaiting_background() {
    let r = resp("接下来", Some(FinishReason::Stop));
    assert!(is_suspect_final(&Some("接下来".into()), &[], &r));
}

#[test]
fn classify_accepts_clean_stop_while_awaiting_background() {
    let canonical = vec![
        user("clone repo"),
        tool(r#"{"background":true,"action_id":"act-9","status":"running"}"#, "c9"),
    ];
    let r = resp("克隆已在后台运行，完成后会自动继续。", Some(FinishReason::Stop));
    assert_eq!(
        classify(
            &Some("克隆已在后台运行，完成后会自动继续。".into()),
            &[],
            &r,
            &canonical,
            state(0, 0, 2, false),
        ),
        AfterLlmAction::Accept
    );
}

#[test]
fn classify_retries_empty_then_accepts_when_exhausted() {
    let r = resp("", None);
    assert_eq!(
        classify(&None, &[], &r, &[], state(2, 0, 2, false)),
        AfterLlmAction::RetryEmpty { delay_ms: 10 }
    );
    assert_eq!(
        classify(&None, &[], &r, &[], state(0, 0, 2, false)),
        AfterLlmAction::Accept
    );
}

#[test]
fn classify_accepts_complete_mid_session_final() {
    let canonical = vec![user("go"), tool("ok", "c1")];
    let r = resp("好的，已经完成了。", Some(FinishReason::Stop));
    assert_eq!(
        classify(&Some("好的，已经完成了。".into()), &[], &r, &canonical, state(0, 0, 2, false)),
        AfterLlmAction::Accept
    );
}

#[test]
fn classify_retries_cut_off_with_mid_session_nudge() {
    let canonical = vec![user("go"), tool("ok", "c1")];
    let r = resp("让我先查一下，", Some(FinishReason::Stop));
    match classify(&Some("让我先查一下，".into()), &[], &r, &canonical, state(0, 0, 2, false)) {
        AfterLlmAction::RetryCutOff { nudge } => {
            assert!(nudge.contains("session is not finished"));
        }
        other => panic!("expected RetryCutOff, got {other:?}"),
    }
}

#[test]
fn classify_skips_cut_off_when_pending_ask() {
    let r = resp("让我先查一下，", Some(FinishReason::Stop));
    assert_eq!(
        classify(&Some("让我先查一下，".into()), &[], &r, &[], state(0, 0, 2, true)),
        AfterLlmAction::Accept
    );
}

#[test]
fn classify_retries_incomplete_tool_arg_json() {
    let actions = vec![Action {
        tool_name: "files".into(),
        tool_input: Json::Null,
        is_final: false,
        tool_call_id: Some("c1".into()),
    }];
    let r = resp("", Some(FinishReason::ToolCalls));
    match classify(&None, &actions, &r, &[], state(0, 0, 2, false)) {
        AfterLlmAction::RetryCutOff { nudge } => {
            assert!(nudge.contains("incomplete JSON"));
        }
        other => panic!("expected RetryCutOff for Null tool args, got {other:?}"),
    }
    assert_eq!(
        classify(&None, &actions, &r, &[], state(0, 2, 2, false)),
        AfterLlmAction::Accept
    );
    let final_only = vec![Action {
        tool_name: "final_answer".into(),
        tool_input: Json::Null,
        is_final: true,
        tool_call_id: None,
    }];
    assert_eq!(
        classify(
            &Some("done".into()),
            &final_only,
            &resp("done", Some(FinishReason::Stop)),
            &[],
            state(0, 0, 2, false),
        ),
        AfterLlmAction::Accept
    );
}

#[test]
fn default_after_llm_uses_response_policy() {
    let r = resp("让我先查一下，", Some(FinishReason::Stop));
    let action = classify(&Some("让我先查一下，".into()), &[], &r, &[], state(0, 0, 2, false));
    assert!(matches!(action, AfterLlmAction::RetryCutOff { .. }));
}

// ── parsing ────────────────────────────────────────────────────────────

fn path_args() -> Json {
    obj(&[("path", Json::Str("x.txt".to_string()))])
}

#[test]
fn mod_parse_empty_response_no_actions() {
    let (thought, actions) = parse(&resp("", None), 1);
    assert_eq!(thought, None);
    assert!(actions.is_empty());
}

#[test]
fn react_parse_empty_response_no_actions() {
    let (thought, actions) = parse(&resp("", None), 1);
    assert_eq!(thought, None);
    assert!(actions.is_empty());
}

#[test]
fn mod_parse_text_only_no_finish_reason_keeps_thought_no_action() {
    let (thought, actions) = parse(&resp("hello", Some(FinishReason::Stop)), 0);
    assert_eq!(thought.as_deref(), Some("hello"));
    assert!(actions.is_empty(), "step 0 must not auto-finalize");
}

#[test]
fn react_parse_text_only_no_finish_reason_keeps_thought_no_action() {
    let (thought, actions) = parse(&resp("hello", Some(FinishReason::Stop)), 0);
    assert_eq!(thought.as_deref(), Some("hello"));
    assert!(actions.is_empty());
}

fn check_auto_final() {
    let (thought, actions) = parse(&resp("the answer is 42", Some(FinishReason::Stop)), 1);
    assert_eq!(thought.as_deref(), Some("the answer is 42"));
    assert_eq!(actions.len(), 1);
    assert!(actions[0].is_final);
    assert_eq!(actions[0].tool_name, "final_answer");
    assert!(actions[0].tool_call_id.is_none());
}

#[test]
fn mod_parse_text_with_stop_finish_step_nonzero_auto_finalizes() {
    check_auto_final();
}

#[test]
fn react_parse_text_with_stop_finish_step_nonzero_auto_finalizes() {
    check_auto_final();
}

fn check_tool_calls_produce_actions() {
    let r = resp_calls("thinking", vec![call("call_1", "read_file", path_args())], Some(FinishReason::ToolCalls));
    let (thought, actions) = parse(&r, 1);
    assert_eq!(thought.as_deref(), Some("thinking"));
    assert_eq!(actions.len(), 1);
    assert!(!actions[0].is_final);
    assert_eq!(actions[0].tool_name, "read_file");
    assert_eq!(actions[0].tool_input.get_str("path").map(|s| s.as_str()), Some("x.txt"));
    assert_eq!(actions[0].tool_call_id.as_deref(), Some("call_1"));
}

#[test]
fn mod_parse_tool_calls_produce_actions() {
    check_tool_calls_produce_actions();
}

#[test]
fn react_parse_tool_calls_produce_actions() {
    check_tool_calls_produce_actions();
}

#[test]
fn parse_short_fragment_before_tool_call_is_not_a_thought() {
    for t in ["我", "I", "我先", "Go"] {
        let r = resp_calls(t, vec![call("call_1", "read_file", path_args())], Some(FinishReason::ToolCalls));
        let (thought, actions) = parse(&r, 1);
        assert_eq!(thought, None, "{t:?} must not become a thought bubble");
        assert_eq!(actions.len(), 1);
    }
}

#[test]
fn parse_tool_call_keeps_meaningful_preamble() {
    let r = resp_calls("正在读取文件。", vec![call("call_1", "read_file", path_args())], Some(FinishReason::ToolCalls));
    let (thought, actions) = parse(&r, 1);
    assert_eq!(thought.as_deref(), Some("正在读取文件。"));
    assert_eq!(actions.len(), 1);
}

fn check_final_answer_marked_final() {
    let args = obj(&[("answer", Json::Str("done".to_string()))]);
    let r = resp_calls("answering", vec![call("c2", "final_answer", args)], Some(FinishReason::ToolCalls));
    let (_, actions) = parse(&r, 2);
    assert!(actions[0].is_final);
}

#[test]
fn mod_parse_final_answer_tool_call_marked_final() {
    check_final_answer_marked_final();
}

#[test]
fn react_parse_final_answer_tool_call_marked_final() {
    check_final_answer_marked_final();
}

fn check_non_final_not_marked() {
    for name in ["answer", "done"] {
        let r = resp_calls("t", vec![call("", name, obj(&[]))], Some(FinishReason::ToolCalls));
        let (_, actions) = parse(&r, 1);
        assert!(!actions[0].is_final, "{name} must not be final");
    }
}

#[test]
fn mod_parse_non_final_tool_calls_are_not_marked_final() {
    check_non_final_not_marked();
}

#[test]
fn react_parse_non_final_tool_calls_are_not_marked_final() {
    check_non_final_not_marked();
}

fn check_empty_id_generated() {
    let r = resp_calls("", vec![call("", "read_file", obj(&[]))], Some(FinishReason::ToolCalls));
    let (_, actions) = parse(&r, 1);
    assert!(actions[0].tool_call_id.is_some());
    assert!(!actions[0].tool_call_id.as_ref().unwrap().is_empty());
}

#[test]
fn mod_parse_empty_tool_call_id_gets_generated() {
    check_empty_id_generated();
}

#[test]
fn react_parse_empty_tool_call_id_gets_generated() {
    check_empty_id_generated();
}

fn check_order() {
    let tcs = vec![call("a", "search", obj(&[])), call("b", "read_file", obj(&[]))];
    let (_, actions) = parse(&resp_calls("multi", tcs, Some(FinishReason::ToolCalls)), 1);
    assert_eq!(actions.len(), 2);
    assert_eq!(actions[0].tool_name, "search");
    assert_eq!(actions[1].tool_name, "read_file");
}

#[test]
fn mod_parse_multiple_tool_calls_preserve_order() {
    check_order();
}

#[test]
fn react_parse_multiple_tool_calls_preserve_order() {
    check_order();
}

fn check_precedence() {
    let r = resp_calls("text", vec![call("x", "read_file", obj(&[]))], Some(FinishReason::Stop));
    let (_, actions) = parse(&r, 1);
    assert_eq!(actions.len(), 1);
    assert!(!actions[0].is_final);
}

#[test]
fn mod_parse_tool_calls_take_precedence_over_text_final() {
    check_precedence();
}

#[test]
fn react_parse_tool_calls_take_precedence_over_text_final() {
    check_precedence();
}

#[test]
fn mod_parse_text_trimmed_for_thought() {
    let (thought, _) = parse(&resp("  spaced thought  ", Some(FinishReason::Stop)), 1);
    assert_eq!(thought.as_deref(), Some("spaced thought"));
}

#[test]
fn react_parse_text_trimmed_for_thought() {
    let (thought, _) = parse(&resp("  spaced thought  ", Some(FinishReason::Stop)), 1);
    assert_eq!(thought.as_deref(), Some("spaced thought"));
}

// ── pending ask ────────────────────────────────────────────────────────

fn ask_tool_msg(question: &str) -> CanonicalMessage {
    tool(
        &format!(r#"{{"ask":true,"question":"{question}","awaiting_answer":true,"options":[]}}"#),
        "call_ask",
    )
}

fn check_pending_ask_unanswered() {
    let canonical = vec![user("help me"), ask_tool_msg("which file?")];
    assert!(ReActEngine::canonical_has_pending_ask(&canonical));
}

#[test]
fn mod_pending_ask_true_when_ask_result_unanswered() {
    check_pending_ask_unanswered();
}

#[test]
fn react_pending_ask_true_when_ask_result_unanswered() {
    check_pending_ask_unanswered();
}

fn check_answered() {
    let canonical = vec![
        user("help me"),
        ask_tool_msg("which file?"),
        user("Answer to your previous question: the first one"),
    ];
    assert!(!ReActEngine::canonical_has_pending_ask(&canonical));
}

#[test]
fn mod_pending_ask_false_when_user_message_follows_ask() {
    check_answered();
}

#[test]
fn react_pending_ask_false_when_user_message_follows_ask() {
    check_answered();
}

fn check_no_ask() {
    let canonical = vec![user("help me"), tool(r#"{"success":true,"output":"ok"}"#, "call_x")];
    assert!(!ReActEngine::canonical_has_pending_ask(&canonical));
}

#[test]
fn mod_pending_ask_false_when_no_ask_tool_result() {
    check_no_ask();
}

#[test]
fn react_pending_ask_false_when_no_ask_tool_result() {
    check_no_ask();
}

fn check_user_before_ask() {
    let canonical = vec![user("first question"), ask_tool_msg("second question?")];
    assert!(ReActEngine::canonical_has_pending_ask(&canonical));
}

#[test]
fn mod_pending_ask_false_when_user_message_before_ask() {
    check_user_before_ask();
}

#[test]
fn react_pending_ask_false_when_user_message_before_ask() {
    check_user_before_ask();
}

fn check_reads_last_ask() {
    let canonical = vec![ask_tool_msg("first?"), ask_tool_msg("second?")];
    assert_eq!(ReActEngine::extract_pending_ask_question(&canonical), "second?");
}

#[test]
fn mod_extract_pending_ask_question_reads_last_ask() {
    check_reads_last_ask();
}

#[test]
fn react_extract_pending_ask_question_reads_last_ask() {
    check_reads_last_ask();
}

fn check_fallback() {
    let canonical = vec![tool("truncated {\"ask\":true,\"quest", "call_ask")];
    assert_eq!(
        ReActEngine::extract_pending_ask_question(&canonical),
        "I have a pending question for you."
    );
}

#[test]
fn mod_extract_pending_ask_question_falls_back_on_unparseable_output() {
    check_fallback();
}

#[test]
fn react_extract_pending_ask_question_falls_back_on_unparseable_output() {
    check_fallback();
}
