//! Turning a model response into a thought and actions, and reading the
//! pending `ask` question back out of the transcript.

use vstd::prelude::*;
use crate::ids::{IdMinter, minted_id};
use crate::json::{Json, get_str, json_clone, json_eqv, json_text_value, parse_json};
use crate::response_policy::has_ask_marker;
use crate::text::{chars_of, string_of, trim_chars, trim_seq, str_contains};
use crate::types::{Action, CanonicalMessage, CanonicalRole, ContentPart, FinishReason, LlmResponse, ToolCall};

verus! {

/// Fallback question when the pending `ask` result cannot be read.
pub const PENDING_QUESTION_FALLBACK: &'static str = "I have a pending question for you.";

/// Some call is not the `final_answer` call.
pub open spec fn has_non_final_call(calls: Seq<ToolCall>) -> bool {
    exists|i: int| 0 <= i < calls.len() && (#[trigger] calls[i]).name@ != "final_answer"@
}

/// The thought a response yields: its trimmed text, unless empty or a
/// leaked fragment of at most two characters in front of a tool call.
pub open spec fn parsed_thought(response: LlmResponse) -> Option<Seq<char>> {
    let text = trim_seq(response.text@);
    let suppress = response.tool_calls@.len() > 0 && has_non_final_call(response.tool_calls@)
        && text.len() <= 2;
    if text.len() == 0 || suppress {
        None
    } else {
        Some(text)
    }
}

/// Action `a` is the one tool call `tc` becomes (with an id minted from
/// `seed` when the provider sent an empty one).
pub open spec fn action_of_call(a: Action, tc: ToolCall, seed: Seq<char>) -> bool {
    &&& a.tool_name@ == tc.name@
    &&& json_eqv(a.tool_input, tc.arguments)
    &&& a.is_final == (tc.name@ == "final_answer"@)
    &&& a.tool_call_id matches Some(id) && if tc.id@.len() > 0 {
        id@ == tc.id@
    } else {
        exists|n: nat| id@ == minted_id("call"@, seed, n)
    }
}

/// The implicit final answer a plain text `Stop` turns into.
pub open spec fn is_implicit_final(a: Action) -> bool {
    &&& a.tool_name@ == "final_answer"@
    &&& a.tool_input is Null
    &&& a.is_final
    &&& a.tool_call_id is None
}

/// The actions a response yields: one per tool call, in order; else an
/// implicit final answer for a non-empty text that stopped normally after
/// step 0; else none.
pub open spec fn parsed_actions(
    response: LlmResponse,
    step_number: u32,
    seed: Seq<char>,
    actions: Seq<Action>,
) -> bool {
    let calls = response.tool_calls@;
    let text = trim_seq(response.text@);
    if calls.len() > 0 {
        actions.len() == calls.len() && forall|i: int|
            0 <= i < calls.len() ==> action_of_call(#[trigger] actions[i], calls[i], seed)
    } else if text.len() > 0 && response.finish_reason == Some(FinishReason::Stop) && step_number
        > 0 {
        actions.len() == 1 && is_implicit_final(actions[0])
    } else {
        actions.len() == 0
    }
}

/// Parse an LLM response into its thought text and actions. Only the
/// `final_answer` name marks a tool call as final; an empty provider call id
/// is replaced by a fresh `call-…` id.
pub fn parse_default_model_response(
    response: &LlmResponse,
    step_number: u32,
    ids: &mut IdMinter,
) -> (r: (Option<String>, Vec<Action>))
    ensures
        match r.0 {
            Some(t) => parsed_thought(*response) == Some(t@),
            None => parsed_thought(*response) is None,
        },
        parsed_actions(*response, step_number, old(ids).seed_spec(), r.1@),
        final(ids).seed_spec() == old(ids).seed_spec(),
{
    let raw = chars_of(response.text.as_str());
    let text = trim_chars(raw.as_slice());
    let calls = &response.tool_calls;
    let mut any_non_final = false;
    let mut i: usize = 0;
    while i < calls.len()
        invariant
            i <= calls@.len(),
            any_non_final == exists|j: int| 0 <= j < i && (#[trigger] calls@[j]).name@
                != "final_answer"@,
        decreases calls.len() - i,
    {
        if !crate::json::eq_str(calls[i].name.as_str(), "final_answer") {
            any_non_final = true;
        }
        i += 1;
    }
    let suppress = calls.len() > 0 && any_non_final && text.len() <= 2;
    let thought = if text.len() == 0 || suppress {
        None
    } else {
        Some(string_of(text.as_slice()))
    };
    let mut actions: Vec<Action> = Vec::new();
    if calls.len() > 0 {
        let ghost seed = old(ids).seed_spec();
        let mut k: usize = 0;
        while k < calls.len()
            invariant
                k <= calls@.len(),
                actions@.len() == k,
                ids.seed_spec() == seed,
                forall|j: int| 0 <= j < k ==> action_of_call(#[trigger] actions@[j], calls@[j], seed),
            decreases calls.len() - k,
        {
            let tc = &calls[k];
            let is_final = crate::json::eq_str(tc.name.as_str(), "final_answer");
            let id = if tc.id.as_str().is_empty() {
                let ghost n = ids.counter();
                let fresh = ids.mint("call");
                assert(fresh@ == minted_id("call"@, seed, n));
                fresh
            } else {
                tc.id.clone()
            };
            let action = Action {
                tool_name: tc.name.clone(),
                tool_input: json_clone(&tc.arguments),
                is_final,
                tool_call_id: Some(id),
            };
            actions.push(action);
            k += 1;
        }
    } else {
        let stop = match response.finish_reason {
            Some(FinishReason::Stop) => true,
            _ => false,
        };
        if text.len() > 0 && stop && step_number > 0 {
            actions.push(
                Action {
                    tool_name: String::from_str("final_answer"),
                    tool_input: Json::Null,
                    is_final: true,
                    tool_call_id: None,
                },
            );
        }
    }
    (thought, actions)
}

/// Some text is present after trimming.
pub open spec fn has_text(t: Option<String>) -> bool {
    t matches Some(s) && trim_seq(s@).len() > 0
}

/// A retried response is worth replacing the previous candidate with: it
/// carries a non-blank thought, an action, a web search, non-blank
/// reasoning or a thinking block.
pub open spec fn candidate_has_payload(
    response: LlmResponse,
    thought: Option<String>,
    actions: Seq<Action>,
) -> bool {
    has_text(thought) || actions.len() > 0 || response.web_search_calls > 0 || has_text(
        response.reasoning,
    ) || response.thinking_blocks > 0
}

fn non_blank(t: &Option<String>) -> (r: bool)
    ensures
        r == has_text(*t),
{
    match t {
        Some(s) => {
            let c = chars_of(s.as_str());
            let tr = trim_chars(c.as_slice());
            tr.len() > 0
        },
        None => false,
    }
}

/// A retried response is worth replacing the previous candidate with.
pub fn response_candidate_has_payload(
    response: &LlmResponse,
    thought: &Option<String>,
    actions: &[Action],
) -> (r: bool)
    ensures
        r == candidate_has_payload(*response, *thought, actions@),
{
    non_blank(thought) || actions.len() > 0 || response.web_search_calls > 0 || non_blank(
        &response.reasoning,
    ) || response.thinking_blocks > 0
}

/// The question of the first readable `ask` part of a body.
pub open spec fn ask_question_in_parts(parts: Seq<ContentPart>) -> Option<Seq<char>>
    decreases parts.len(),
{
    if parts.len() == 0 {
        None
    } else {
        let rest = ask_question_in_parts(parts.drop_first());
        match parts[0] {
            ContentPart::Text(t) => if has_ask_marker(t@) {
                match json_text_value(t@) {
                    Some(v) => match get_str(v, "question"@) {
                        Some(q) => Some(q),
                        None => rest,
                    },
                    None => rest,
                }
            } else {
                rest
            },
            _ => rest,
        }
    }
}

/// The question of the last readable `ask` tool result.
pub open spec fn pending_question(msgs: Seq<CanonicalMessage>) -> Option<Seq<char>>
    decreases msgs.len(),
{
    if msgs.len() == 0 {
        None
    } else if msgs.last().role == CanonicalRole::Tool && ask_question_in_parts(
        msgs.last().content@,
    ) is Some {
        ask_question_in_parts(msgs.last().content@)
    } else {
        pending_question(msgs.drop_last())
    }
}

fn ask_question_of_parts(parts: &[ContentPart]) -> (r: Option<String>)
    ensures
        match r {
            Some(q) => ask_question_in_parts(parts@) == Some(q@),
            None => ask_question_in_parts(parts@) is None,
        },
{
    let mut i: usize = 0;
    proof {
        assert(parts@.skip(0) == parts@);
    }
    while i < parts.len()
        invariant
            i <= parts@.len(),
            ask_question_in_parts(parts@.skip(i as int)) == ask_question_in_parts(parts@),
        decreases parts.len() - i,
    {
        proof {
            assert(parts@.skip(i as int)[0] == parts@[i as int]);
            assert(parts@.skip(i as int).drop_first() == parts@.skip(i + 1));
        }
        match &parts[i] {
            ContentPart::Text(t) => {
                if str_contains(t.as_str(), "\"ask\":true") || str_contains(t.as_str(), "\"ask\": true") {
                    match parse_json(t.as_str()) {
                        Some(v) => match v.get_str("question") {
                            Some(q) => return Some(q.clone()),
                            None => {},
                        },
                        None => {},
                    }
                }
            },
            _ => {},
        }
        i += 1;
    }
    None
}

/// The question text of the last unanswered `ask` tool result; a generic
/// prompt when the output is truncated or unparseable.
pub fn extract_pending_ask_question(canonical: &[CanonicalMessage]) -> (r: String)
    ensures
        r@ == match pending_question(canonical@) {
            Some(q) => q,
            None => PENDING_QUESTION_FALLBACK@,
        },
{
    let mut i = canonical.len();
    proof {
        assert(canonical@.take(i as int) == canonical@);
    }
    while i > 0
        invariant
            i <= canonical@.len(),
            pending_question(canonical@.take(i as int)) == pending_question(canonical@),
        decreases i,
    {
        let ghost pre = canonical@.take(i as int);
        i -= 1;
        proof {
            assert(pre.drop_last() == canonical@.take(i as int));
            assert(pre.last() == canonical@[i as int]);
        }
        let m = &canonical[i];
        if m.role == CanonicalRole::Tool {
            match ask_question_of_parts(m.content.as_slice()) {
                Some(q) => return q,
                None => {},
            }
        }
    }
    String::from_str(PENDING_QUESTION_FALLBACK)
}

/// What a response carrying provider-side search items does to the turn.
#[derive(Debug, Clone, Copy, PartialEq, Eq, Structural)]
pub enum SearchContextOutcome {
    /// A search round with no answer yet: the search context is pushed and
    /// the turn asks again.
    ContinueWithoutTools,
    /// Go on to the tool batch or the turn end; `assistant_already_pushed`
    /// when the search context was pushed together with a synthesized final.
    Proceed { assistant_already_pushed: bool },
}

/// Every action is a synthesized final answer (final, without a call id).
pub open spec fn synthesized_final_only(actions: Seq<Action>) -> bool {
    actions.len() > 0 && forall|i: int| 0 <= i < actions.len() ==> (#[trigger] actions[i]).is_final
        && actions[i].tool_call_id is None
}

/// Whether the search context of a response is pushed by the turn itself:
/// only when it has search items and no real tool calls (mixed responses
/// leave the search items to the tool batch).
pub fn search_context_outcome(response: &LlmResponse, actions: &[Action]) -> (r: SearchContextOutcome)
    ensures
        r == if response.web_search_calls == 0 {
            SearchContextOutcome::Proceed { assistant_already_pushed: false }
        } else if actions@.len() == 0 {
            SearchContextOutcome::ContinueWithoutTools
        } else if synthesized_final_only(actions@) {
            SearchContextOutcome::Proceed { assistant_already_pushed: true }
        } else {
            SearchContextOutcome::Proceed { assistant_already_pushed: false }
        },
{
    if response.web_search_calls == 0 {
        return SearchContextOutcome::Proceed { assistant_already_pushed: false };
    }
    if actions.len() == 0 {
        return SearchContextOutcome::ContinueWithoutTools;
    }
    let mut i: usize = 0;
    while i < actions.len()
        invariant
            i <= actions@.len(),
            forall|k: int| 0 <= k < i ==> (#[trigger] actions@[k]).is_final && actions@[k].tool_call_id is None,
        decreases actions.len() - i,
    {
        if !actions[i].is_final || actions[i].tool_call_id.is_some() {
            return SearchContextOutcome::Proceed { assistant_already_pushed: false };
        }
        i += 1;
    }
    SearchContextOutcome::Proceed { assistant_already_pushed: true }
}

/// The assistant text and reasoning a pushed search round carries: the
/// parsed thought (else the raw text), and the reasoning only when there
/// are no thinking blocks.
pub fn search_round_text(thought: &Option<String>, response: &LlmResponse) -> (r: (String, Option<String>))
    ensures
        r.0@ == match thought {
            Some(t) => t@,
            None => response.text@,
        },
        r.1 == if response.thinking_blocks == 0 {
            response.reasoning
        } else {
            None
        },
{
    let text = match thought {
        Some(t) => t.clone(),
        None => response.text.clone(),
    };
    let reasoning = if response.thinking_blocks == 0 {
        match &response.reasoning {
            Some(r) => Some(r.clone()),
            None => None,
        }
    } else {
        None
    };
    (text, reasoning)
}

/// Law: a retried response has a payload exactly when it yields something:
/// an action, a non-blank thought, a web search, non-blank reasoning or a
/// thinking block. Any action at all is a payload, so a retry that produced
/// a tool call always replaces the candidate.
pub proof fn a_retry_with_content_has_a_payload(response: LlmResponse, thought: Option<String>, actions: Seq<Action>)
    ensures
        actions.len() > 0 ==> candidate_has_payload(response, thought, actions),
        response.web_search_calls > 0 ==> candidate_has_payload(response, thought, actions),
        response.thinking_blocks > 0 ==> candidate_has_payload(response, thought, actions),
        (thought matches Some(t) && trim_seq(t@).len() > 0) ==> candidate_has_payload(response, thought, actions),
        (response.reasoning matches Some(t) && trim_seq(t@).len() > 0) ==> candidate_has_payload(
            response,
            thought,
            actions,
        ),
        (actions.len() == 0 && response.web_search_calls == 0 && response.thinking_blocks == 0 && (thought is None
            || trim_seq(thought->0@).len() == 0) && (response.reasoning is None || trim_seq(
            response.reasoning->0@,
        ).len() == 0)) ==> !candidate_has_payload(response, thought, actions),
{
}

} // verus!
