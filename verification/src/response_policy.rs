//! Empty and cut-off response policy, and the transcript scans it relies on.
//!
//! The loop consumes only [`AfterLlmAction`]; every heuristic (phrase tables,
//! nudge texts, background-wait detection) lives here.

use vstd::prelude::*;
use crate::json::{Json, get_str, get_bool, json_get, json_str, json_text_value, parse_json};
use crate::text::{
    chars_of, contains, ends_with, seq_contains, seq_ends_with, trim_end_len, trim_end_seq,
    utf8_len, utf8_width, char_utf8_width, str_contains,
};
use crate::types::{Action, CanonicalMessage, CanonicalRole, ContentPart, FinishReason, LlmResponse};

verus! {

/// Nudge appended to the retry call when a text-only response looks cut off.
pub const CUT_OFF_RETRY_NUDGE: &'static str =
    "Your previous response was cut off before you finished. Please continue and complete it.";

/// Nudge used when tool-call arguments arrived as truncated JSON.
pub const INCOMPLETE_TOOL_ARGS_NUDGE: &'static str = "Your previous tool call was cut off mid-arguments (incomplete JSON). Emit the same tool call again with complete, valid JSON arguments. Do not continue a half-written JSON string.";

/// Stronger nudge used when a cut-off narration follows a tool result.
pub const MID_ACTION_RETRY_NUDGE: &'static str = "The session is not finished: the last step ran a tool and its result is in context, but your reply only described the next step instead of doing it. If the session still needs a tool call or a follow-up action, make that tool call NOW instead of describing it. Do not repeat work already done. Continue and finish the actual session.";

/// Byte budget of the observation head scanned for wait markers.
pub const OBSERVATION_HEAD_BYTES: usize = 256;

/// What the loop should do after an LLM response.
#[derive(Debug, PartialEq, Eq)]
pub enum AfterLlmAction {
    /// Accept the parsed response and continue the turn.
    Accept,
    /// Empty response: settle briefly and retry the same context.
    RetryEmpty { delay_ms: u64 },
    /// Suspect cut-off or mid-session narration: retry with a nudge.
    RetryCutOff { nudge: &'static str },
}

/// Budgets and gates the policy needs beyond the parsed response.
#[derive(Debug, Clone, Copy)]
pub struct ResponsePolicyState {
    pub empty_retries_remaining: u32,
    pub empty_retry_delay_ms: u64,
    pub cut_off_retries_used: u32,
    pub cut_off_retries_max: u32,
    /// An `ask` is waiting for the user.
    pub pending_ask: bool,
}

/// Planning / transition phrases that announce an action the model did not take.
pub open spec fn plan_endings() -> Seq<Seq<char>> {
    seq![
        "接下来"@, "下一步"@, "然后"@, "接着"@, "再确认"@, "确认一下"@, "检查一下"@,
        "核对一下"@, "查看一下"@, "再看"@, "以便"@, "才能"@, "next"@, "next step"@,
        "then"@, "let me"@, "I will"@, "I'll"@,
    ]
}

/// Characters that end a sentence mid-way (comma, colon, semicolon, ellipsis).
pub open spec fn is_dangling_punct(c: char) -> bool {
    c == '，' || c == '：' || c == ',' || c == ';' || c == ':' || c == '…'
}

/// The text ends mid-sentence or on a planning phrase.
pub open spec fn looks_cut_off_spec(s: Seq<char>) -> bool {
    let t = trim_end_seq(s);
    ||| seq_ends_with(s, "..."@)
    ||| seq_ends_with(s, "路路路"@)
    ||| (exists|k: int| 0 <= k < plan_endings().len() && seq_ends_with(t, plan_endings()[k]))
    ||| (t.len() > 0 && is_dangling_punct(t.last()))
}

/// A text-only response that must not be trusted as a deliberate final.
pub open spec fn is_suspect_final_spec(
    thought: Option<String>,
    actions: Seq<Action>,
    response: LlmResponse,
) -> bool {
    let trusted_actions = actions.len() > 0 && !(forall|i: int|
        0 <= i < actions.len() ==> (#[trigger] actions[i]).is_final && actions[i].tool_call_id
            is None);
    if trusted_actions {
        false
    } else {
        match thought {
            Some(t) => response.finish_reason != Some(FinishReason::Stop) || looks_cut_off_spec(
                t@,
            ),
            None => false,
        }
    }
}

/// Scanning back from the tail, a tool result comes before any user message.
pub open spec fn pending_tool_context(msgs: Seq<CanonicalMessage>) -> bool
    decreases msgs.len(),
{
    if msgs.len() == 0 {
        false
    } else {
        match msgs.last().role {
            CanonicalRole::User => false,
            CanonicalRole::Tool => true,
            _ => pending_tool_context(msgs.drop_last()),
        }
    }
}

/// First text part of a message body.
pub open spec fn first_text(parts: Seq<ContentPart>) -> Option<Seq<char>>
    decreases parts.len(),
{
    if parts.len() == 0 {
        None
    } else {
        match parts[0] {
            ContentPart::Text(t) => Some(t@),
            _ => first_text(parts.drop_first()),
        }
    }
}

/// Number of characters of `s` that fit in `max_bytes` of UTF-8, cut at a
/// character boundary.
pub open spec fn head_len(s: Seq<char>, max_bytes: nat) -> nat
    decreases s.len(),
{
    if utf8_len(s) <= max_bytes {
        s.len()
    } else {
        head_len(s.drop_last(), max_bytes)
    }
}

/// The wait marker `"next_step":"end_turn"`, compact or with a space.
pub open spec fn has_next_step_marker(head: Seq<char>) -> bool {
    seq_contains(head, "\"next_step\":\"end_turn\""@) || seq_contains(
        head,
        "\"next_step\": \"end_turn\""@,
    )
}

/// The head looks like a background-wait acknowledgement.
pub open spec fn head_looks_wait(head: Seq<char>) -> bool {
    has_next_step_marker(head) || seq_contains(head, "\"background\":true"@) || seq_contains(
        head,
        "\"background\": true"@,
    )
}

/// Every row of `rows` has `"status": "running"`.
pub open spec fn all_rows_running(rows: Seq<Json>) -> bool {
    forall|i: int| 0 <= i < rows.len() ==> get_str(#[trigger] rows[i], "status"@) == Some("running"@)
}

/// A parsed observation says "background still running; result will be pushed".
pub open spec fn value_is_background_wait_spec(v: Json) -> bool {
    let has_next_step = get_str(v, "next_step"@) == Some("end_turn"@);
    if get_bool(v, "background"@) == Some(true) {
        get_str(v, "status"@) == Some("running"@) || get_str(v, "status"@) is None
    } else if !has_next_step {
        false
    } else if get_str(v, "status"@) == Some("running"@) && get_str(v, "action_id"@) is Some {
        true
    } else {
        match json_get(v, "actions"@) {
            Some(Json::Array(rows)) => rows@.len() > 0 && all_rows_running(rows@),
            _ => false,
        }
    }
}

/// An observation text is a background-wait acknowledgement.
pub open spec fn observation_is_background_wait_spec(text: Seq<char>) -> bool {
    let head = text.take(head_len(text, OBSERVATION_HEAD_BYTES as nat) as int);
    if !head_looks_wait(head) {
        false
    } else {
        match json_text_value(text) {
            Some(v) => value_is_background_wait_spec(v),
            None => has_next_step_marker(head),
        }
    }
}

/// Scanning back to the nearest user message, every tool observation is a
/// background-wait acknowledgement, and there is at least one.
pub open spec fn only_awaiting_background_from(msgs: Seq<CanonicalMessage>, saw_tool: bool) -> bool
    decreases msgs.len(),
{
    if msgs.len() == 0 {
        saw_tool
    } else {
        match msgs.last().role {
            CanonicalRole::User => saw_tool,
            CanonicalRole::Tool => match first_text(msgs.last().content@) {
                Some(t) => observation_is_background_wait_spec(t)
                    && only_awaiting_background_from(msgs.drop_last(), true),
                None => false,
            },
            _ => only_awaiting_background_from(msgs.drop_last(), saw_tool),
        }
    }
}

/// The text carries the `ask` marker.
pub open spec fn has_ask_marker(t: Seq<char>) -> bool {
    seq_contains(t, "\"ask\":true"@) || seq_contains(t, "\"ask\": true"@)
}

/// Some text part of the body carries the `ask` marker.
pub open spec fn parts_have_ask(parts: Seq<ContentPart>) -> bool {
    exists|i: int| 0 <= i < parts.len() && (#[trigger] parts[i] matches ContentPart::Text(t)
        && has_ask_marker(t@))
}

/// Scanning back from the tail, an `ask` tool result comes before any user message.
pub open spec fn pending_ask_spec(msgs: Seq<CanonicalMessage>) -> bool
    decreases msgs.len(),
{
    if msgs.len() == 0 {
        false
    } else if msgs.last().role == CanonicalRole::User {
        false
    } else if msgs.last().role == CanonicalRole::Tool && parts_have_ask(msgs.last().content@) {
        true
    } else {
        pending_ask_spec(msgs.drop_last())
    }
}

/// Some action is a non-final call whose arguments did not parse.
pub open spec fn has_incomplete_tool_args(actions: Seq<Action>) -> bool {
    exists|i: int| 0 <= i < actions.len() && !(#[trigger] actions[i]).is_final
        && actions[i].tool_input is Null
}

/// The complete response policy decision.
pub open spec fn classify_spec(
    thought: Option<String>,
    actions: Seq<Action>,
    response: LlmResponse,
    canonical: Seq<CanonicalMessage>,
    state: ResponsePolicyState,
) -> AfterLlmAction {
    let empty = thought is None && actions.len() == 0 && response.web_search_calls == 0;
    if empty {
        if state.empty_retries_remaining > 0 {
            AfterLlmAction::RetryEmpty { delay_ms: state.empty_retry_delay_ms }
        } else {
            AfterLlmAction::Accept
        }
    } else if has_incomplete_tool_args(actions) && !state.pending_ask && response.web_search_calls
        == 0 && state.cut_off_retries_used < state.cut_off_retries_max {
        AfterLlmAction::RetryCutOff { nudge: INCOMPLETE_TOOL_ARGS_NUDGE }
    } else if state.pending_ask || response.web_search_calls != 0 || state.cut_off_retries_used
        >= state.cut_off_retries_max || !is_suspect_final_spec(thought, actions, response) {
        AfterLlmAction::Accept
    } else if pending_tool_context(canonical) && !only_awaiting_background_from(canonical, false) {
        AfterLlmAction::RetryCutOff { nudge: MID_ACTION_RETRY_NUDGE }
    } else {
        AfterLlmAction::RetryCutOff { nudge: CUT_OFF_RETRY_NUDGE }
    }
}

/// The `k`-th planning phrase.
fn plan_ending(k: usize) -> (r: &'static str)
    requires
        k < 18,
    ensures
        r@ == plan_endings()[k as int],
{
    match k {
        0 => "接下来",
        1 => "下一步",
        2 => "然后",
        3 => "接着",
        4 => "再确认",
        5 => "确认一下",
        6 => "检查一下",
        7 => "核对一下",
        8 => "查看一下",
        9 => "再看",
        10 => "以便",
        11 => "才能",
        12 => "next",
        13 => "next step",
        14 => "then",
        15 => "let me",
        16 => "I will",
        _ => "I'll",
    }
}

/// A prefix of a slice.
fn prefix_of(s: &[char], n: usize) -> (r: Vec<char>)
    requires
        n <= s@.len(),
    ensures
        r@ == s@.take(n as int),
{
    let mut out: Vec<char> = Vec::new();
    let mut i: usize = 0;
    while i < n
        invariant
            i <= n <= s@.len(),
            out@ == s@.take(i as int),
        decreases n - i,
    {
        out.push(s[i]);
        assert(s@.take(i + 1) == s@.take(i as int).push(s@[i as int]));
        i += 1;
    }
    out
}

/// The text ends mid-sentence (trailing comma, colon, ellipsis) or on a
/// planning phrase that announces an action the model did not take.
/// Sentence terminators (`。` `.` `！` `!` `？` `?`) never count as cut off.
pub fn looks_cut_off(text: &str) -> (r: bool)
    ensures
        r == looks_cut_off_spec(text@),
{
    let s = chars_of(text);
    let n = trim_end_len(s.as_slice());
    let t = prefix_of(s.as_slice(), n);
    let dots = chars_of("...");
    if ends_with(s.as_slice(), dots.as_slice()) {
        return true;
    }
    let odd = chars_of("路路路");
    if ends_with(s.as_slice(), odd.as_slice()) {
        return true;
    }
    let mut k: usize = 0;
    while k < 18
        invariant
            k <= 18,
            t@ == trim_end_seq(text@),
            forall|j: int| 0 <= j < k ==> !seq_ends_with(t@, #[trigger] plan_endings()[j]),
        decreases 18 - k,
    {
        let w = chars_of(plan_ending(k));
        if ends_with(t.as_slice(), w.as_slice()) {
            return true;
        }
        k += 1;
    }
    assert(plan_endings().len() == 18);
    if t.len() > 0 {
        let c = t[t.len() - 1];
        c == '，' || c == '：' || c == ',' || c == ';' || c == ':' || c == '…'
    } else {
        false
    }
}

/// A text-only response that should be retried before ending the turn:
/// explicit tool calls (final or not) are trusted, empty responses are left
/// to the empty-response retry, and a thought is suspect when the provider
/// did not report `Stop` or the text looks cut off.
pub fn is_suspect_final(thought: &Option<String>, actions: &[Action], response: &LlmResponse) -> (r: bool)
    ensures
        r == is_suspect_final_spec(*thought, actions@, *response),
{
    if actions.len() > 0 {
        let mut all_bare_final = true;
        let mut i: usize = 0;
        while i < actions.len()
            invariant
                i <= actions@.len(),
                all_bare_final == forall|j: int|
                    0 <= j < i ==> (#[trigger] actions@[j]).is_final && actions@[j].tool_call_id
                        is None,
            decreases actions.len() - i,
        {
            let a = &actions[i];
            all_bare_final = all_bare_final && a.is_final && a.tool_call_id.is_none();
            i += 1;
        }
        if !all_bare_final {
            return false;
        }
    }
    match thought {
        Some(t) => {
            let stop = match response.finish_reason {
                Some(FinishReason::Stop) => true,
                _ => false,
            };
            !stop || looks_cut_off(t.as_str())
        },
        None => false,
    }
}

/// Scanning back from the tail, a tool result comes before any user message:
/// tools ran this turn and no newer user message arrived.
pub fn canonical_has_pending_tool_context(canonical: &[CanonicalMessage]) -> (r: bool)
    ensures
        r == pending_tool_context(canonical@),
{
    let mut i = canonical.len();
    proof {
        assert(canonical@.take(i as int) == canonical@);
    }
    while i > 0
        invariant
            i <= canonical@.len(),
            pending_tool_context(canonical@.take(i as int)) == pending_tool_context(canonical@),
        decreases i,
    {
        let ghost pre = canonical@.take(i as int);
        i -= 1;
        proof {
            assert(pre.drop_last() == canonical@.take(i as int));
            assert(pre.last() == canonical@[i as int]);
        }
        match canonical[i].role {
            CanonicalRole::User => return false,
            CanonicalRole::Tool => return true,
            _ => {},
        }
    }
    false
}

/// The first text part of a body, if any.
pub fn first_text_part(parts: &[ContentPart]) -> (r: Option<&String>)
    ensures
        match r {
            Some(t) => first_text(parts@) == Some(t@),
            None => first_text(parts@) is None,
        },
{
    let mut i: usize = 0;
    proof {
        assert(parts@.skip(0) == parts@);
    }
    while i < parts.len()
        invariant
            i <= parts@.len(),
            first_text(parts@.skip(i as int)) == first_text(parts@),
        decreases parts.len() - i,
    {
        proof {
            assert(parts@.skip(i as int)[0] == parts@[i as int]);
            assert(parts@.skip(i as int).drop_first() == parts@.skip(i + 1));
        }
        match &parts[i] {
            ContentPart::Text(t) => return Some(t),
            _ => {},
        }
        i += 1;
    }
    None
}

proof fn lemma_utf8_len_push(s: Seq<char>, c: char)
    ensures
        utf8_len(s.push(c)) == utf8_len(s) + utf8_width(c),
{
    assert(s.push(c).drop_last() == s);
}

proof fn lemma_utf8_len_mono(s: Seq<char>, k: int)
    requires
        0 <= k <= s.len(),
    ensures
        utf8_len(s.take(k)) <= utf8_len(s),
    decreases s.len() - k,
{
    if k < s.len() {
        lemma_utf8_len_mono(s, k + 1);
        assert(s.take(k + 1).drop_last() == s.take(k));
    } else {
        assert(s.take(k) == s);
    }
}

proof fn lemma_head_len_is_max_fit(s: Seq<char>, max: nat, k: int)
    requires
        0 <= k <= s.len(),
        utf8_len(s.take(k)) <= max,
        k == s.len() || utf8_len(s.take(k + 1)) > max,
    ensures
        head_len(s, max) == k,
    decreases s.len(),
{
    if utf8_len(s) <= max {
        if k < s.len() {
            lemma_utf8_len_mono(s, k + 1);
        }
    } else {
        assert(k < s.len()) by {
            if k == s.len() {
                assert(s.take(k) == s);
            }
        }
        let d = s.drop_last();
        assert(d.take(k) == s.take(k));
        if k < d.len() {
            assert(d.take(k + 1) == s.take(k + 1));
        }
        lemma_head_len_is_max_fit(d, max, k);
    }
}

/// Number of leading characters of `s` whose UTF-8 encoding fits in
/// `max_bytes`: the head is cut at a character boundary, never mid-character.
pub fn observation_head_len(s: &[char], max_bytes: usize) -> (r: usize)
    ensures
        r == head_len(s@, max_bytes as nat),
        r <= s@.len(),
        utf8_len(s@.take(r as int)) <= max_bytes,
{
    let mut k: usize = 0;
    let mut used: usize = 0;
    proof {
        assert(s@.take(0) == Seq::<char>::empty());
    }
    while k < s.len()
        invariant
            k <= s@.len(),
            used == utf8_len(s@.take(k as int)),
            used <= max_bytes,
        decreases s.len() - k,
    {
        let w = char_utf8_width(s[k]);
        proof {
            assert(s@.take(k + 1) == s@.take(k as int).push(s@[k as int]));
            lemma_utf8_len_push(s@.take(k as int), s@[k as int]);
        }
        if w > max_bytes - used {
            proof {
                lemma_head_len_is_max_fit(s@, max_bytes as nat, k as int);
            }
            return k;
        }
        used = used + w;
        k += 1;
    }
    proof {
        lemma_head_len_is_max_fit(s@, max_bytes as nat, k as int);
    }
    k
}

/// All rows of an `actions` array report `"status": "running"`.
fn rows_running(rows: &Vec<Json>) -> (r: bool)
    ensures
        r == all_rows_running(rows@),
{
    let mut i: usize = 0;
    while i < rows.len()
        invariant
            i <= rows@.len(),
            forall|j: int| 0 <= j < i ==> get_str(#[trigger] rows@[j], "status"@) == Some("running"@),
        decreases rows.len() - i,
    {
        let running = match rows[i].get_str("status") {
            Some(s) => crate::json::eq_str(s.as_str(), "running"),
            None => false,
        };
        if !running {
            return false;
        }
        i += 1;
    }
    true
}

/// A parsed observation says the work continues in the background and its
/// result will be pushed later: legacy `background: true` with a running (or
/// absent) status, or `next_step: end_turn` with a running action id or a
/// non-empty list of running actions.
pub fn value_is_background_wait(v: &Json) -> (r: bool)
    ensures
        r == value_is_background_wait_spec(*v),
{
    let has_next_step = match v.get_str("next_step") {
        Some(s) => crate::json::eq_str(s.as_str(), "end_turn"),
        None => false,
    };
    let status = v.get_str("status");
    if v.get_bool("background") == Some(true) {
        return match status {
            Some(s) => crate::json::eq_str(s.as_str(), "running"),
            None => true,
        };
    }
    if !has_next_step {
        return false;
    }
    let running = match status {
        Some(s) => crate::json::eq_str(s.as_str(), "running"),
        None => false,
    };
    if running && v.get_str("action_id").is_some() {
        return true;
    }
    match v.get("actions") {
        Some(Json::Array(rows)) => rows.len() > 0 && rows_running(rows),
        _ => false,
    }
}

/// A shell / actions observation means "background work still running;
/// result will be auto-pushed". Only the first 256 bytes (cut at a character
/// boundary) are scanned for markers; a document that does not parse (for
/// example a truncated one) counts only through the `next_step` marker.
pub fn observation_is_background_wait(text: &str) -> (r: bool)
    ensures
        r == observation_is_background_wait_spec(text@),
{
    let s = chars_of(text);
    let n = observation_head_len(s.as_slice(), OBSERVATION_HEAD_BYTES);
    let head = prefix_of(s.as_slice(), n);
    let m1 = chars_of("\"next_step\":\"end_turn\"");
    let m2 = chars_of("\"next_step\": \"end_turn\"");
    let b1 = chars_of("\"background\":true");
    let b2 = chars_of("\"background\": true");
    let head_has_next_step = contains(head.as_slice(), m1.as_slice()) || contains(
        head.as_slice(),
        m2.as_slice(),
    );
    let looks_wait = head_has_next_step || contains(head.as_slice(), b1.as_slice()) || contains(
        head.as_slice(),
        b2.as_slice(),
    );
    if !looks_wait {
        return false;
    }
    match parse_json(text) {
        Some(v) => value_is_background_wait(&v),
        None => head_has_next_step,
    }
}

/// Scanning back to the nearest user message, every tool observation is a
/// still-running background acknowledgement (and there is at least one): a
/// deliberate text-only stop is then the correct turn end.
pub fn canonical_only_awaiting_background(canonical: &[CanonicalMessage]) -> (r: bool)
    ensures
        r == only_awaiting_background_from(canonical@, false),
{
    let mut saw_tool = false;
    let mut i = canonical.len();
    proof {
        assert(canonical@.take(i as int) == canonical@);
    }
    while i > 0
        invariant
            i <= canonical@.len(),
            only_awaiting_background_from(canonical@.take(i as int), saw_tool)
                == only_awaiting_background_from(canonical@, false),
        decreases i,
    {
        let ghost pre = canonical@.take(i as int);
        i -= 1;
        proof {
            assert(pre.drop_last() == canonical@.take(i as int));
            assert(pre.last() == canonical@[i as int]);
        }
        let m = &canonical[i];
        match m.role {
            CanonicalRole::User => return saw_tool,
            CanonicalRole::Tool => {
                saw_tool = true;
                match first_text_part(m.content.as_slice()) {
                    Some(t) => {
                        if !observation_is_background_wait(t.as_str()) {
                            return false;
                        }
                    },
                    None => return false,
                }
            },
            _ => {},
        }
    }
    saw_tool
}

/// Some text part of the body carries the `ask` marker.
fn parts_have_ask_marker(parts: &[ContentPart]) -> (r: bool)
    ensures
        r == parts_have_ask(parts@),
{
    let mut i: usize = 0;
    while i < parts.len()
        invariant
            i <= parts@.len(),
            forall|j: int| 0 <= j < i ==> !(#[trigger] parts@[j] matches ContentPart::Text(t)
                && has_ask_marker(t@)),
        decreases parts.len() - i,
    {
        match &parts[i] {
            ContentPart::Text(t) => {
                if str_contains(t.as_str(), "\"ask\":true") || str_contains(t.as_str(), "\"ask\": true") {
                    return true;
                }
            },
            _ => {},
        }
        i += 1;
    }
    false
}

/// Legacy unanswered-`ask` detection: scanning back from the tail, a tool
/// result carrying the `ask` marker comes before any user message.
pub fn canonical_has_pending_ask(canonical: &[CanonicalMessage]) -> (r: bool)
    ensures
        r == pending_ask_spec(canonical@),
{
    let mut i = canonical.len();
    proof {
        assert(canonical@.take(i as int) == canonical@);
    }
    while i > 0
        invariant
            i <= canonical@.len(),
            pending_ask_spec(canonical@.take(i as int)) == pending_ask_spec(canonical@),
        decreases i,
    {
        let ghost pre = canonical@.take(i as int);
        i -= 1;
        proof {
            assert(pre.drop_last() == canonical@.take(i as int));
            assert(pre.last() == canonical@[i as int]);
        }
        let m = &canonical[i];
        if m.role == CanonicalRole::User {
            return false;
        }
        if m.role == CanonicalRole::Tool && parts_have_ask_marker(m.content.as_slice()) {
            return true;
        }
    }
    false
}

/// Some action is a non-final call whose arguments did not parse.
fn any_incomplete_tool_args(actions: &[Action]) -> (r: bool)
    ensures
        r == has_incomplete_tool_args(actions@),
{
    let mut i: usize = 0;
    while i < actions.len()
        invariant
            i <= actions@.len(),
            forall|j: int| 0 <= j < i ==> !(!(#[trigger] actions@[j]).is_final
                && actions@[j].tool_input is Null),
        decreases actions.len() - i,
    {
        if !actions[i].is_final && actions[i].tool_input.is_null() {
            return true;
        }
        i += 1;
    }
    false
}

/// Classify a parsed LLM step into accept / retry. Empty responses are
/// checked before cut-off ones; web-search rounds are never retried.
pub fn classify(
    thought: &Option<String>,
    actions: &[Action],
    response: &LlmResponse,
    canonical: &[CanonicalMessage],
    state: ResponsePolicyState,
) -> (r: AfterLlmAction)
    ensures
        r == classify_spec(*thought, actions@, *response, canonical@, state),
{
    let empty = thought.is_none() && actions.len() == 0 && response.web_search_calls == 0;
    if empty {
        if state.empty_retries_remaining > 0 {
            return AfterLlmAction::RetryEmpty { delay_ms: state.empty_retry_delay_ms };
        }
        return AfterLlmAction::Accept;
    }
    let incomplete = any_incomplete_tool_args(actions);
    if incomplete && !state.pending_ask && response.web_search_calls == 0
        && state.cut_off_retries_used < state.cut_off_retries_max {
        return AfterLlmAction::RetryCutOff { nudge: INCOMPLETE_TOOL_ARGS_NUDGE };
    }
    if state.pending_ask || response.web_search_calls != 0 || state.cut_off_retries_used
        >= state.cut_off_retries_max || !is_suspect_final(thought, actions, response) {
        return AfterLlmAction::Accept;
    }
    if canonical_has_pending_tool_context(canonical) && !canonical_only_awaiting_background(
        canonical,
    ) {
        AfterLlmAction::RetryCutOff { nudge: MID_ACTION_RETRY_NUDGE }
    } else {
        AfterLlmAction::RetryCutOff { nudge: CUT_OFF_RETRY_NUDGE }
    }
}

/// Law: a provider-side web-search round is never retried (a retry would
/// repeat the search); a response with nothing at all is retried while the
/// empty-retry budget lasts and accepted after; a pending `ask` is never
/// answered by a cut-off retry; and no cut-off retry follows once the
/// cut-off budget is spent.
pub proof fn search_rounds_are_never_retried(
    thought: Option<String>,
    actions: Seq<Action>,
    response: LlmResponse,
    canonical: Seq<CanonicalMessage>,
    state: ResponsePolicyState,
)
    ensures
        response.web_search_calls != 0 ==> classify_spec(thought, actions, response, canonical, state)
            == AfterLlmAction::Accept,
        (thought is None && actions.len() == 0 && response.web_search_calls == 0) ==> classify_spec(
            thought,
            actions,
            response,
            canonical,
            state,
        ) == if state.empty_retries_remaining > 0 {
            AfterLlmAction::RetryEmpty { delay_ms: state.empty_retry_delay_ms }
        } else {
            AfterLlmAction::Accept
        },
        state.pending_ask ==> !(classify_spec(thought, actions, response, canonical, state) is RetryCutOff),
        state.cut_off_retries_used >= state.cut_off_retries_max ==> !(classify_spec(
            thought,
            actions,
            response,
            canonical,
            state,
        ) is RetryCutOff),
{
}

} // verus!
