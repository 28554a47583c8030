//! Projection of pending context (steering, follow-ups, answers, background
//! action results, cross-session inbox) into transcript injections, and the
//! low-trust formatting of cross-session envelopes.

use vstd::prelude::*;
use crate::text::{chars_of, has_char, is_cc, is_control, string_of};
use crate::state::{InjectSource, ReActState, TranscriptRecord, applied_ids, injects_id};
use crate::keyed::SessionMap;
use crate::types::MessageAttachment;

verus! {

/// Per-message text cap for injected cross-session messages.
pub const MESSAGING_INJECT_CHARS: usize = 400;

/// Cap for peer-controlled meta tokens (ids, sender).
pub const META_TOKEN_CHARS: usize = 64;

/// Cap for a peer-controlled subject.
pub const SUBJECT_CHARS: usize = 80;

/// A character a peer-controlled token may keep: no control characters and
/// none of the framing breakers `[ ] ( )` and line breaks.
pub open spec fn token_char_allowed(c: char) -> bool {
    !is_cc(c) && c != ']' && c != ')' && c != '(' && c != '[' && c != '\n' && c != '\r'
}

/// The allowed characters of `s`, in order.
pub open spec fn keep_allowed(s: Seq<char>) -> Seq<char>
    decreases s.len(),
{
    if s.len() == 0 {
        s
    } else if token_char_allowed(s.last()) {
        keep_allowed(s.drop_last()).push(s.last())
    } else {
        keep_allowed(s.drop_last())
    }
}

/// `s` stripped of framing breakers and cut to `max` characters.
pub open spec fn sanitized(s: Seq<char>, max: nat) -> Seq<char> {
    let k = keep_allowed(s);
    if k.len() <= max {
        k
    } else {
        k.take(max as int)
    }
}

proof fn lemma_keep_allowed_clean(s: Seq<char>)
    ensures
        forall|i: int| 0 <= i < keep_allowed(s).len() ==> token_char_allowed(
            #[trigger] keep_allowed(s)[i],
        ),
    decreases s.len(),
{
    if s.len() > 0 {
        lemma_keep_allowed_clean(s.drop_last());
        let k0 = keep_allowed(s.drop_last());
        if token_char_allowed(s.last()) {
            assert forall|i: int| 0 <= i < k0.push(s.last()).len() implies token_char_allowed(
                #[trigger] k0.push(s.last())[i],
            ) by {
                if i < k0.len() {
                    assert(k0.push(s.last())[i] == k0[i]);
                }
            }
        }
    }
}

/// Law: a sanitized token is at most `max` characters long and holds none of
/// the characters that could close or forge a low-trust enclosure.
pub proof fn sanitized_is_clean(s: Seq<char>, max: nat)
    ensures
        sanitized(s, max).len() <= max,
        forall|i: int| 0 <= i < sanitized(s, max).len() ==> token_char_allowed(
            #[trigger] sanitized(s, max)[i],
        ),
{
    lemma_keep_allowed_clean(s);
}

/// Strip control characters and framing breakers from a peer-controlled
/// token and keep at most `max_chars` characters.
pub fn sanitize_inject_token(s: &str, max_chars: usize) -> (r: String)
    ensures
        r@ == sanitized(s@, max_chars as nat),
{
    let cs = chars_of(s);
    let mut out: Vec<char> = Vec::new();
    let mut i: usize = 0;
    proof {
        assert(cs@.take(0) == Seq::<char>::empty());
    }
    while i < cs.len()
        invariant
            i <= cs@.len(),
            cs@ == s@,
            out@ == sanitized(cs@.take(i as int), max_chars as nat),
        decreases cs.len() - i,
    {
        let c = cs[i];
        proof {
            let t = cs@.take(i + 1);
            assert(t.drop_last() == cs@.take(i as int));
            assert(t.last() == c);
        }
        let allowed = !is_control(c) && c != ']' && c != ')' && c != '(' && c != '[' && c != '\n'
            && c != '\r';
        if allowed && out.len() < max_chars {
            out.push(c);
        }
        proof {
            let k0 = keep_allowed(cs@.take(i as int));
            let k1 = keep_allowed(cs@.take(i + 1));
            if allowed {
                assert(k1 == k0.push(c));
                if k0.len() < max_chars {
                    assert(k1.len() <= max_chars ==> sanitized(cs@.take(i + 1), max_chars as nat) == k1);
                    if k1.len() > max_chars {
                        assert(false);
                    }
                } else {
                    assert(k1.take(max_chars as int) =~= k0.take(max_chars as int));
                }
            } else {
                assert(k1 == k0);
            }
        }
        i += 1;
    }
    proof {
        assert(cs@.take(cs@.len() as int) == cs@);
    }
    string_of(out.as_slice())
}

/// Kind of a cross-session envelope.
#[derive(Debug, Clone, Copy, PartialEq, Eq, Structural)]
pub enum MessageType {
    Message,
    Request,
    Reply,
    Receipt,
    System,
}

/// Wire name of an envelope kind.
pub open spec fn message_type_name(t: MessageType) -> Seq<char> {
    match t {
        MessageType::Message => "message"@,
        MessageType::Request => "request"@,
        MessageType::Reply => "reply"@,
        MessageType::Receipt => "receipt"@,
        MessageType::System => "system"@,
    }
}

impl MessageType {
    /// Wire name of the kind.
    pub fn as_str(&self) -> (r: &'static str)
        ensures
            r@ == message_type_name(*self),
    {
        match self {
            MessageType::Message => "message",
            MessageType::Request => "request",
            MessageType::Reply => "reply",
            MessageType::Receipt => "receipt",
            MessageType::System => "system",
        }
    }
}

/// One cross-session inbox envelope.
pub struct Envelope {
    pub id: String,
    pub from: String,
    pub to: String,
    pub text: String,
    pub message_type: MessageType,
    pub in_reply_to: Option<String>,
    pub subject: Option<String>,
}

/// The optional meta part ` <label><value>` when the value survives sanitizing.
pub open spec fn meta_part(label: Seq<char>, value: Option<String>, max: nat) -> Seq<char> {
    match value {
        Some(v) => if v@.len() > 0 && sanitized(v@, max).len() > 0 {
            label + sanitized(v@, max)
        } else {
            Seq::empty()
        },
        None => Seq::empty(),
    }
}

/// The message meta: `id=…[ in_reply_to=…][ subject=…]`.
pub open spec fn envelope_meta(env: Envelope) -> Seq<char> {
    "id="@ + sanitized(env.id@, META_TOKEN_CHARS as nat) + meta_part(
        " in_reply_to="@,
        env.in_reply_to,
        META_TOKEN_CHARS as nat,
    ) + meta_part(" subject="@, env.subject, SUBJECT_CHARS as nat)
}

/// The text an envelope is injected as.
pub open spec fn formatted_inject(env: Envelope) -> Seq<char> {
    let body = sanitized(env.text@, MESSAGING_INJECT_CHARS as nat);
    let from = sanitized(env.from@, META_TOKEN_CHARS as nat);
    match env.message_type {
        MessageType::Receipt => {
            let of = match env.in_reply_to {
                Some(r) => if sanitized(r@, META_TOKEN_CHARS as nat).len() > 0 {
                    sanitized(r@, META_TOKEN_CHARS as nat)
                } else {
                    "<unknown>"@
                },
                None => "<unknown>"@,
            };
            "[Read receipt] "@ + from + " read your message "@ + of
        },
        MessageType::System => "[Runtime system notice from "@ + from + " (LOW TRUST)]: "@ + body,
        _ => "[Cross-session message from "@ + from + " ("@ + message_type_name(env.message_type)
            + "; "@ + envelope_meta(env) + ")]: "@ + body,
    }
}

fn optional_meta(label: &str, value: &Option<String>, max: usize) -> (r: String)
    ensures
        r@ == meta_part(label@, *value, max as nat),
{
    match value {
        Some(v) => {
            if v.as_str().is_empty() {
                return String::new();
            }
            let clean = sanitize_inject_token(v.as_str(), max);
            if clean.as_str().is_empty() {
                String::new()
            } else {
                let mut out = String::from_str(label);
                out.append(clean.as_str());
                out
            }
        },
        None => String::new(),
    }
}

/// Format one inbox envelope for injection into the model context. The
/// body and every peer-controlled meta token are sanitized, so peer text
/// cannot close the low-trust enclosure or forge a second notice.
pub fn format_cross_session_inject(env: &Envelope) -> (r: String)
    ensures
        r@ == formatted_inject(*env),
{
    let body = sanitize_inject_token(env.text.as_str(), MESSAGING_INJECT_CHARS);
    let from = sanitize_inject_token(env.from.as_str(), META_TOKEN_CHARS);
    match env.message_type {
        MessageType::Receipt => {
            let of = match &env.in_reply_to {
                Some(r) => {
                    let clean = sanitize_inject_token(r.as_str(), META_TOKEN_CHARS);
                    if clean.as_str().is_empty() {
                        String::from_str("<unknown>")
                    } else {
                        clean
                    }
                },
                None => String::from_str("<unknown>"),
            };
            let mut out = String::from_str("[Read receipt] ");
            out.append(from.as_str());
            out.append(" read your message ");
            out.append(of.as_str());
            out
        },
        MessageType::System => {
            let mut out = String::from_str("[Runtime system notice from ");
            out.append(from.as_str());
            out.append(" (LOW TRUST)]: ");
            out.append(body.as_str());
            out
        },
        _ => {
            let mut meta = String::from_str("id=");
            let id = sanitize_inject_token(env.id.as_str(), META_TOKEN_CHARS);
            meta.append(id.as_str());
            let irt = optional_meta(" in_reply_to=", &env.in_reply_to, META_TOKEN_CHARS);
            meta.append(irt.as_str());
            let subj = optional_meta(" subject=", &env.subject, SUBJECT_CHARS);
            meta.append(subj.as_str());
            let mut out = String::from_str("[Cross-session message from ");
            out.append(from.as_str());
            out.append(" (");
            out.append(env.message_type.as_str());
            out.append("; ");
            out.append(meta.as_str());
            out.append(")]: ");
            out.append(body.as_str());
            out
        },
    }
}

/// No character of `s` is a closing bracket or a line break.
pub open spec fn fence_free(s: Seq<char>) -> bool {
    !has_char(s, ']') && !has_char(s, '\n') && !has_char(s, '\r')
}

proof fn lemma_concat_fence_free(a: Seq<char>, b: Seq<char>)
    requires
        fence_free(a),
        fence_free(b),
    ensures
        fence_free(a + b),
{
    assert forall|i: int| 0 <= i < (a + b).len() implies (a + b)[i] != ']' && (a + b)[i] != '\n'
        && (a + b)[i] != '\r' by {
        if i < a.len() {
            assert((a + b)[i] == a[i]);
        } else {
            assert((a + b)[i] == b[i - a.len()]);
        }
    }
}

proof fn lemma_sanitized_fence_free(s: Seq<char>, max: nat)
    ensures
        fence_free(sanitized(s, max)),
{
    sanitized_is_clean(s, max);
}

proof fn lemma_meta_part_fence_free(label: Seq<char>, value: Option<String>, max: nat)
    requires
        fence_free(label),
    ensures
        fence_free(meta_part(label, value, max)),
{
    match value {
        Some(v) => {
            lemma_sanitized_fence_free(v@, max);
            lemma_concat_fence_free(label, sanitized(v@, max));
        },
        None => {},
    }
}

/// Law: peer text cannot break the low-trust fence. A message or system
/// notice is a header, then `]: `, then the sanitized body, and neither the
/// header nor the body holds a `]` or a line break: the enclosure closes
/// exactly once, right before the body.
pub proof fn cross_session_fence_holds(env: Envelope)
    requires
        env.message_type != MessageType::Receipt,
    ensures
        exists|header: Seq<char>|
            formatted_inject(env) == header + "]: "@ + sanitized(
                env.text@,
                MESSAGING_INJECT_CHARS as nat,
            ) && fence_free(header),
        fence_free(sanitized(env.text@, MESSAGING_INJECT_CHARS as nat)),
{
    reveal_strlit("[Runtime system notice from ");
    reveal_strlit(" (LOW TRUST)]: ");
    reveal_strlit(" (LOW TRUST)");
    reveal_strlit("]: ");
    reveal_strlit("[Cross-session message from ");
    reveal_strlit(" (");
    reveal_strlit("; ");
    reveal_strlit(")]: ");
    reveal_strlit(")");
    reveal_strlit("id=");
    reveal_strlit(" in_reply_to=");
    reveal_strlit(" subject=");
    reveal_strlit("message");
    reveal_strlit("request");
    reveal_strlit("reply");
    reveal_strlit("system");
    let body = sanitized(env.text@, MESSAGING_INJECT_CHARS as nat);
    let from = sanitized(env.from@, META_TOKEN_CHARS as nat);
    lemma_sanitized_fence_free(env.text@, MESSAGING_INJECT_CHARS as nat);
    lemma_sanitized_fence_free(env.from@, META_TOKEN_CHARS as nat);
    if env.message_type == MessageType::System {
        let header = "[Runtime system notice from "@ + from + " (LOW TRUST)"@;
        assert(" (LOW TRUST)]: "@ =~= " (LOW TRUST)"@ + "]: "@);
        assert(fence_free("[Runtime system notice from "@));
        assert(fence_free(" (LOW TRUST)"@));
        lemma_concat_fence_free("[Runtime system notice from "@, from);
        lemma_concat_fence_free("[Runtime system notice from "@ + from, " (LOW TRUST)"@);
        assert(formatted_inject(env) =~= header + "]: "@ + body);
    } else {
        let meta = envelope_meta(env);
        lemma_sanitized_fence_free(env.id@, META_TOKEN_CHARS as nat);
        assert(fence_free("id="@));
        assert(fence_free(" in_reply_to="@));
        assert(fence_free(" subject="@));
        lemma_meta_part_fence_free(" in_reply_to="@, env.in_reply_to, META_TOKEN_CHARS as nat);
        lemma_meta_part_fence_free(" subject="@, env.subject, SUBJECT_CHARS as nat);
        lemma_concat_fence_free("id="@, sanitized(env.id@, META_TOKEN_CHARS as nat));
        lemma_concat_fence_free(
            "id="@ + sanitized(env.id@, META_TOKEN_CHARS as nat),
            meta_part(" in_reply_to="@, env.in_reply_to, META_TOKEN_CHARS as nat),
        );
        lemma_concat_fence_free(
            "id="@ + sanitized(env.id@, META_TOKEN_CHARS as nat) + meta_part(
                " in_reply_to="@,
                env.in_reply_to,
                META_TOKEN_CHARS as nat,
            ),
            meta_part(" subject="@, env.subject, SUBJECT_CHARS as nat),
        );
        let tname = message_type_name(env.message_type);
        assert(fence_free(tname));
        assert(fence_free("[Cross-session message from "@));
        assert(fence_free(" ("@));
        assert(fence_free("; "@));
        assert(fence_free(")"@));
        let h1 = "[Cross-session message from "@ + from;
        lemma_concat_fence_free("[Cross-session message from "@, from);
        lemma_concat_fence_free(h1, " ("@);
        lemma_concat_fence_free(h1 + " ("@, tname);
        lemma_concat_fence_free(h1 + " ("@ + tname, "; "@);
        lemma_concat_fence_free(h1 + " ("@ + tname + "; "@, meta);
        lemma_concat_fence_free(h1 + " ("@ + tname + "; "@ + meta, ")"@);
        let header = h1 + " ("@ + tname + "; "@ + meta + ")"@;
        assert(")]: "@ =~= ")"@ + "]: "@);
        assert(formatted_inject(env) =~= header + "]: "@ + body);
    }
}

/// One queued user-side input (steering message or follow-up).
pub struct QueuedInput {
    pub text: String,
    pub attachments: Vec<MessageAttachment>,
    pub message_id: Option<String>,
    /// The input answers a pending `ask`.
    pub is_answer: bool,
}

/// One context item ready for projection.
pub struct PendingContext {
    pub source: InjectSource,
    pub text: String,
    pub attachments: Vec<MessageAttachment>,
    pub message_id: Option<String>,
    /// Durable outbox id of a background-action result, acknowledged once
    /// the injection is durable.
    pub action_result_id: Option<String>,
}

/// All queue-owned context collected at one step boundary.
pub struct PendingContextBatch {
    pub items: Vec<PendingContext>,
    /// Some item answers a pending `ask`, so the ask gate is cleared after
    /// projection.
    pub clears_ask: bool,
}

/// The item a queued input becomes.
pub open spec fn item_of_input(q: QueuedInput, p: PendingContext, otherwise: InjectSource) -> bool {
    &&& p.source == if q.is_answer { InjectSource::Answer } else { otherwise }
    &&& p.text == q.text
    &&& p.attachments == q.attachments
    &&& p.message_id == q.message_id
    &&& p.action_result_id is None
}

/// Some queued input answers a pending `ask`.
pub open spec fn any_answer(qs: Seq<QueuedInput>) -> bool {
    exists|i: int| 0 <= i < qs.len() && (#[trigger] qs[i]).is_answer
}

fn push_inputs(items: &mut Vec<PendingContext>, inputs: Vec<QueuedInput>, otherwise: InjectSource) -> (answered: bool)
    ensures
        final(items)@.len() == old(items)@.len() + inputs@.len(),
        forall|i: int| 0 <= i < old(items)@.len() ==> final(items)@[i] == old(items)@[i],
        forall|i: int| 0 <= i < inputs@.len() ==> item_of_input(inputs@[i], #[trigger] final(items)@[old(items)@.len() + i], otherwise),
        answered == any_answer(inputs@),
{
    let ghost all = inputs@;
    let ghost base = items@;
    let mut rest = inputs;
    let mut answered = false;
    let mut taken: usize = 0;
    let total = rest.len();
    while rest.len() > 0
        invariant
            all.len() == total,
            taken + rest@.len() == all.len(),
            rest@ == all.skip(taken as int),
            items@.len() == base.len() + taken,
            forall|i: int| 0 <= i < base.len() ==> items@[i] == base[i],
            forall|i: int| 0 <= i < taken ==> item_of_input(all[i], #[trigger] items@[base.len() + i], otherwise),
            answered == exists|i: int| 0 <= i < taken && (#[trigger] all[i]).is_answer,
        decreases rest.len(),
    {
        let q = rest.remove(0);
        proof {
            assert(q == all[taken as int]);
            assert(rest@ =~= all.skip(taken + 1));
        }
        let source = if q.is_answer {
            answered = true;
            InjectSource::Answer
        } else {
            otherwise
        };
        items.push(PendingContext {
            source,
            text: q.text,
            attachments: q.attachments,
            message_id: q.message_id,
            action_result_id: None,
        });
        taken += 1;
    }
    answered
}

/// Order the drained queues into one batch: steering first, then
/// follow-ups, then completed background-action results. An input that
/// answers a pending `ask` becomes an `Answer` and clears the ask gate.
pub fn drain_pending_context(
    steering: Vec<QueuedInput>,
    follow_ups: Vec<QueuedInput>,
    action_results: Vec<String>,
) -> (r: PendingContextBatch)
    ensures
        r.items@.len() == steering@.len() + follow_ups@.len() + action_results@.len(),
        forall|i: int| 0 <= i < steering@.len() ==> item_of_input(steering@[i], #[trigger] r.items@[i], InjectSource::Steering),
        forall|i: int| 0 <= i < follow_ups@.len() ==> item_of_input(follow_ups@[i], #[trigger] r.items@[steering@.len() + i], InjectSource::FollowUp),
        forall|i: int| 0 <= i < action_results@.len() ==> {
            let p = #[trigger] r.items@[steering@.len() + follow_ups@.len() + i];
            &&& p.source == InjectSource::ActionResult
            &&& p.text == action_results@[i]
            &&& p.attachments@.len() == 0
            &&& p.message_id is None
            &&& p.action_result_id is None
        },
        r.clears_ask == (any_answer(steering@) || any_answer(follow_ups@)),
{
    let mut items: Vec<PendingContext> = Vec::new();
    let ghost st = steering@;
    let ghost fu = follow_ups@;
    let a1 = push_inputs(&mut items, steering, InjectSource::Steering);
    let ghost after_steering = items@;
    let a2 = push_inputs(&mut items, follow_ups, InjectSource::FollowUp);
    let ghost base = items@;
    let ghost all = action_results@;
    let mut rest = action_results;
    let mut taken: usize = 0;
    let total = rest.len();
    while rest.len() > 0
        invariant
            all.len() == total,
            taken + rest@.len() == all.len(),
            rest@ == all.skip(taken as int),
            items@.len() == base.len() + taken,
            base.len() == st.len() + fu.len(),
            forall|i: int| 0 <= i < base.len() ==> items@[i] == base[i],
            forall|i: int| 0 <= i < taken ==> {
                let p = #[trigger] items@[base.len() + i];
                &&& p.source == InjectSource::ActionResult
                &&& p.text == all[i]
                &&& p.attachments@.len() == 0
                &&& p.message_id is None
                &&& p.action_result_id is None
            },
        decreases rest.len(),
    {
        let text = rest.remove(0);
        proof {
            assert(text == all[taken as int]);
            assert(rest@ =~= all.skip(taken + 1));
        }
        items.push(PendingContext {
            source: InjectSource::ActionResult,
            text,
            attachments: Vec::new(),
            message_id: None,
            action_result_id: None,
        });
        taken += 1;
    }
    proof {
        assert(after_steering.len() == st.len());
        assert forall|i: int| 0 <= i < st.len() implies item_of_input(st[i], #[trigger] items@[i], InjectSource::Steering) by {
            assert(item_of_input(st[i], after_steering[0 + i], InjectSource::Steering));
            assert(items@[i] == base[i]);
            assert(base[i] == after_steering[i]);
        }
        assert forall|i: int| 0 <= i < fu.len() implies item_of_input(fu[i], #[trigger] items@[st.len() + i], InjectSource::FollowUp) by {
            assert(items@[st.len() + i] == base[st.len() + i]);
        }
    }
    PendingContextBatch { items, clears_ask: a1 || a2 }
}

/// Each claimed inbox envelope becomes its own cross-session context item,
/// identified by the envelope id (message boundaries stay intact).
pub fn inbox_items(envelopes: &[Envelope]) -> (r: Vec<PendingContext>)
    ensures
        r@.len() == envelopes@.len(),
        forall|i: int| 0 <= i < envelopes@.len() ==> {
            let p = #[trigger] r@[i];
            &&& p.source == InjectSource::CrossSession
            &&& p.text@ == formatted_inject(envelopes@[i])
            &&& p.attachments@.len() == 0
            &&& (p.message_id matches Some(m) && m@ == envelopes@[i].id@)
            &&& p.action_result_id is None
        },
{
    let mut out: Vec<PendingContext> = Vec::new();
    let mut i: usize = 0;
    while i < envelopes.len()
        invariant
            i <= envelopes@.len(),
            out@.len() == i,
            forall|k: int| 0 <= k < i ==> {
                let p = #[trigger] out@[k];
                &&& p.source == InjectSource::CrossSession
                &&& p.text@ == formatted_inject(envelopes@[k])
                &&& p.attachments@.len() == 0
                &&& (p.message_id matches Some(m) && m@ == envelopes@[k].id@)
                &&& p.action_result_id is None
            },
        decreases envelopes.len() - i,
    {
        let env = &envelopes[i];
        out.push(PendingContext {
            source: InjectSource::CrossSession,
            text: format_cross_session_inject(env),
            attachments: Vec::new(),
            message_id: Some(env.id.clone()),
            action_result_id: None,
        });
        i += 1;
    }
    out
}

/// Item `j` carries message id `m`.
pub open spec fn carries_id(items: Seq<PendingContext>, j: int, m: Seq<char>) -> bool {
    0 <= j < items.len() && (items[j].message_id matches Some(n) && n@ == m)
}

/// Item `i` of a batch repeats an injection: its message id is already in
/// the transcript or was carried by an earlier item of the batch.
pub open spec fn is_duplicate(items: Seq<PendingContext>, applied: Set<Seq<char>>, i: int) -> bool {
    items[i].message_id matches Some(m) && (applied.contains(m@) || exists|j: int|
        0 <= j < i && #[trigger] carries_id(items, j, m@))
}

/// Law: of the items a batch projects (those that are not duplicates), no
/// two carry the same message id, and none carries an id the transcript
/// already holds: a redelivered message is projected once.
pub proof fn injections_are_projected_once(
    items: Seq<PendingContext>,
    applied: Set<Seq<char>>,
    a: int,
    b: int,
    m: Seq<char>,
)
    requires
        0 <= a < b < items.len(),
        !is_duplicate(items, applied, a),
        !is_duplicate(items, applied, b),
        items[a].message_id matches Some(x) && x@ == m,
    ensures
        !(items[b].message_id matches Some(y) && y@ == m),
        !applied.contains(m),
{
    if items[b].message_id matches Some(y) && y@ == m {
        assert(carries_id(items, a, m));
    }
}

/// Background-action result ids of the items, in order.
pub open spec fn ack_ids(items: Seq<PendingContext>) -> Seq<Seq<char>>
    decreases items.len(),
{
    if items.len() == 0 {
        Seq::empty()
    } else {
        let prev = ack_ids(items.drop_last());
        match items.last().action_result_id {
            Some(id) => prev.push(id@),
            None => prev,
        }
    }
}

/// Number of duplicate background-action results among the first `n` items.
pub open spec fn duplicate_results(items: Seq<PendingContext>, applied: Set<Seq<char>>, n: int) -> nat
    decreases n,
{
    if n <= 0 {
        0
    } else {
        duplicate_results(items, applied, n - 1) + if is_duplicate(items, applied, n - 1)
            && items[n - 1].source == InjectSource::ActionResult {
            1nat
        } else {
            0
        }
    }
}

/// How a batch is projected.
pub struct InjectionPlan {
    /// Indexes of the items to project, in batch order.
    pub project: Vec<usize>,
    /// Background-action results to acknowledge (duplicates included: the
    /// stable message id proves the transcript already holds them).
    pub acknowledge: Vec<String>,
    /// Duplicate background-action results seen.
    pub duplicate_action_results: u64,
}

/// Decide which items of a batch become transcript injections: every item
/// whose message id is neither already applied nor repeated earlier in the
/// batch, in batch order.
pub fn plan_injections(items: &Vec<PendingContext>, state: &ReActState) -> (r: InjectionPlan)
    requires
        state.wf(),
    ensures
        forall|k: int| 0 <= k < r.project@.len() ==> (#[trigger] r.project@[k]) < items@.len()
            && !is_duplicate(items@, applied_ids(state.events_view()), r.project@[k] as int),
        forall|i: int| 0 <= i < items@.len() && !is_duplicate(items@, applied_ids(state.events_view()), i)
            ==> r.project@.contains(i as usize),
        forall|a: int, b: int| 0 <= a < b < r.project@.len() ==> r.project@[a] < r.project@[b],
        r.acknowledge@.map_values(|s: String| s@) == ack_ids(items@),
        r.duplicate_action_results == if duplicate_results(items@, applied_ids(state.events_view()), items@.len() as int) > u64::MAX {
            u64::MAX as nat
        } else {
            duplicate_results(items@, applied_ids(state.events_view()), items@.len() as int)
        },
{
    let ghost applied = applied_ids(state.events_view());
    let mut seen: SessionMap<()> = SessionMap::new();
    let mut project: Vec<usize> = Vec::new();
    let mut acknowledge: Vec<String> = Vec::new();
    let mut dups: u64 = 0;
    let mut i: usize = 0;
    while i < items.len()
        invariant
            i <= items@.len(),
            state.wf(),
            applied == applied_ids(state.events_view()),
            seen.wf(),
            seen.capacity_spec() == usize::MAX,
            forall|m: Seq<char>| seen@.contains_key(m) ==> exists|j: int| 0 <= j < i && #[trigger] carries_id(items@, j, m),
            forall|j: int| 0 <= j < i && (items@[j].message_id matches Some(n) && !applied.contains(n@)) ==> seen@.contains_key(items@[j].message_id->0@),
            forall|k: int| 0 <= k < project@.len() ==> (#[trigger] project@[k]) < i
                && !is_duplicate(items@, applied, project@[k] as int),
            forall|j: int| 0 <= j < i && !is_duplicate(items@, applied, j) ==> project@.contains(j as usize),
            forall|a: int, b: int| 0 <= a < b < project@.len() ==> project@[a] < project@[b],
            acknowledge@.map_values(|s: String| s@) == ack_ids(items@.take(i as int)),
            dups == if duplicate_results(items@, applied, i as int) > u64::MAX {
                u64::MAX as nat
            } else {
                duplicate_results(items@, applied, i as int)
            },
        decreases items.len() - i,
    {
        let item = &items[i];
        let ghost old_project = project@;
        let ghost old_seen = seen@;
        let duplicate = match &item.message_id {
            Some(m) => {
                if state.has_applied_inject(m.as_str()) {
                    true
                } else if seen.contains_key(m.as_str()) {
                    true
                } else {
                    seen.insert(m.clone(), ());
                    false
                }
            },
            None => false,
        };
        proof {
            match items@[i as int].message_id {
                Some(m) => {
                    if !applied.contains(m@) && !duplicate {
                        assert forall|j: int| 0 <= j < i implies !carries_id(items@, j, m@) by {
                            if carries_id(items@, j, m@) {
                                assert(seen@.contains_key(items@[j].message_id->0@));
                            }
                        }
                    }
                    if !applied.contains(m@) && seen@.contains_key(m@) && duplicate {
                    }
                    if !applied.contains(m@) && (exists|j: int| 0 <= j < i && #[trigger] carries_id(items@, j, m@)) {
                        let j = choose|j: int| 0 <= j < i && #[trigger] carries_id(items@, j, m@);
                        assert(seen@.contains_key(items@[j].message_id->0@));
                    }
                },
                None => {},
            }
        }
        if duplicate && item.source == InjectSource::ActionResult {
            dups = dups.saturating_add(1);
        }
        match &item.action_result_id {
            Some(id) => acknowledge.push(id.clone()),
            None => {},
        }
        if !duplicate {
            project.push(i);
        }
        proof {
            match items@[i as int].message_id {
                Some(m) => {
                    if !duplicate {
                        assert(carries_id(items@, i as int, m@));
                    }
                },
                None => {},
            }
            if !duplicate {
                assert(project@[project@.len() - 1] == i);
            }
            assert(duplicate == is_duplicate(items@, applied, i as int));
            assert(items@.take(i + 1).drop_last() == items@.take(i as int));
            assert(acknowledge@.map_values(|s: String| s@) =~= ack_ids(items@.take(i + 1)));
            assert forall|j: int| 0 <= j < i + 1 && !is_duplicate(items@, applied, j) implies project@.contains(j as usize) by {
                if j < i {
                    assert(old_project.contains(j as usize));
                    let k = choose|k: int| 0 <= k < old_project.len() && old_project[k] == j as usize;
                    assert(project@[k] == j as usize);
                } else {
                    assert(project@[project@.len() - 1] == i);
                }
            }
        }
        i += 1;
    }
    proof {
        assert(items@.take(items@.len() as int) == items@);
    }
    InjectionPlan { project, acknowledge, duplicate_action_results: dups }
}

/// The transcript event an injected item becomes at `step`.
pub open spec fn inject_record(item: PendingContext, step: u32) -> TranscriptRecord {
    TranscriptRecord::UserInject {
        step_number: step,
        source: item.source,
        text: item.text,
        message_id: item.message_id,
    }
}

/// The events the first `n` items of a batch add at `step`: one per item
/// that is not a duplicate (against `applied`), in batch order.
pub open spec fn injected_records(
    items: Seq<PendingContext>,
    applied: Set<Seq<char>>,
    step: u32,
    n: int,
) -> Seq<TranscriptRecord>
    decreases n,
{
    if n <= 0 {
        Seq::empty()
    } else {
        let prev = injected_records(items, applied, step, n - 1);
        if is_duplicate(items, applied, n - 1) {
            prev
        } else {
            prev.push(inject_record(items[n - 1], step))
        }
    }
}

/// Message ids carried by the items, among the first `n`, that are not
/// duplicates.
pub open spec fn fresh_ids(items: Seq<PendingContext>, applied: Set<Seq<char>>, n: int) -> Set<Seq<char>> {
    Set::new(|m: Seq<char>| exists|j: int| 0 <= j < n && !is_duplicate(items, applied, j) && #[trigger] carries_id(items, j, m))
}

proof fn lemma_applied_push(events: Seq<TranscriptRecord>, r: TranscriptRecord)
    ensures
        applied_ids(events.push(r)) == match r {
            TranscriptRecord::UserInject { message_id: Some(m), .. } => applied_ids(events).insert(m@),
            _ => applied_ids(events),
        },
{
    let after = events.push(r);
    assert forall|id: Seq<char>| applied_ids(events).contains(id) implies applied_ids(after).contains(id) by {
        let i = choose|i: int| injects_id(events, id, i);
        assert(injects_id(after, id, i));
    }
    assert forall|id: Seq<char>| applied_ids(after).contains(id) implies (applied_ids(events).contains(id) || (
    r matches TranscriptRecord::UserInject { message_id: Some(m), .. } && m@ == id)) by {
        let i = choose|i: int| injects_id(after, id, i);
        if i < events.len() {
            assert(injects_id(events, id, i));
        }
    }
    match r {
        TranscriptRecord::UserInject { message_id: Some(m), .. } => {
            assert(injects_id(after, m@, events.len() as int));
            assert(applied_ids(after) =~= applied_ids(events).insert(m@));
        },
        _ => {
            assert(applied_ids(after) =~= applied_ids(events));
        },
    }
}

proof fn lemma_applied_after_injection(
    events: Seq<TranscriptRecord>,
    items: Seq<PendingContext>,
    applied: Set<Seq<char>>,
    step: u32,
    n: int,
)
    requires
        0 <= n <= items.len(),
    ensures
        applied_ids(events + injected_records(items, applied, step, n)) == applied_ids(events).union(
            fresh_ids(items, applied, n),
        ),
    decreases n,
{
    if n == 0 {
        assert(events + injected_records(items, applied, step, 0) =~= events);
        assert(fresh_ids(items, applied, 0) =~= Set::empty());
        assert(applied_ids(events).union(Set::empty()) =~= applied_ids(events));
    } else {
        lemma_applied_after_injection(events, items, applied, step, n - 1);
        let prev = events + injected_records(items, applied, step, n - 1);
        if is_duplicate(items, applied, n - 1) {
            assert(fresh_ids(items, applied, n) =~= fresh_ids(items, applied, n - 1));
        } else {
            let r = inject_record(items[n - 1], step);
            assert(events + injected_records(items, applied, step, n) =~= prev.push(r));
            lemma_applied_push(prev, r);
            match items[n - 1].message_id {
                Some(m) => {
                    assert(carries_id(items, n - 1, m@));
                    assert(fresh_ids(items, applied, n) =~= fresh_ids(items, applied, n - 1).insert(m@));
                    assert(applied_ids(events).union(fresh_ids(items, applied, n)) =~= applied_ids(events).union(
                        fresh_ids(items, applied, n - 1),
                    ).insert(m@));
                },
                None => {
                    assert forall|m: Seq<char>| #[trigger] fresh_ids(items, applied, n).contains(m) implies fresh_ids(
                        items,
                        applied,
                        n - 1,
                    ).contains(m) by {
                        let j = choose|j: int| 0 <= j < n && !is_duplicate(items, applied, j) && #[trigger] carries_id(
                            items,
                            j,
                            m,
                        );
                        assert(j != n - 1);
                    }
                    assert(fresh_ids(items, applied, n) =~= fresh_ids(items, applied, n - 1));
                },
            }
        }
    }
}

proof fn lemma_all_duplicates_add_nothing(
    items: Seq<PendingContext>,
    applied: Set<Seq<char>>,
    step: u32,
    n: int,
)
    requires
        forall|i: int| 0 <= i < n ==> is_duplicate(items, applied, i),
    ensures
        injected_records(items, applied, step, n).len() == 0,
    decreases n,
{
    if n > 0 {
        lemma_all_duplicates_add_nothing(items, applied, step, n - 1);
    }
}

/// Project a batch into the transcript at `step_number`: one injection
/// event per item that is not a duplicate (its message id is neither in the
/// transcript nor carried by an earlier item), in batch order. Returns
/// whether an event was added, and the background-action results to
/// acknowledge (all of them: a duplicate proves the transcript holds it).
pub fn apply_pending_context_batch(state: &mut ReActState, items: &Vec<PendingContext>, step_number: u32) -> (r: (
    bool,
    Vec<String>,
))
    requires
        old(state).wf(),
    ensures
        final(state).wf(),
        final(state).events_view() == old(state).events_view() + injected_records(
            items@,
            applied_ids(old(state).events_view()),
            step_number,
            items@.len() as int,
        ),
        final(state).canonical_view() == old(state).canonical_view(),
        r.0 == (injected_records(items@, applied_ids(old(state).events_view()), step_number, items@.len() as int).len()
            > 0),
        r.1@.map_values(|s: String| s@) == ack_ids(items@),
{
    let ghost base = state.events_view();
    let ghost applied = applied_ids(base);
    let ghost canonical = state.canonical_view();
    let mut added = false;
    let mut acknowledge: Vec<String> = Vec::new();
    let mut i: usize = 0;
    proof {
        assert(base + injected_records(items@, applied, step_number, 0) =~= base);
    }
    while i < items.len()
        invariant
            i <= items@.len(),
            state.wf(),
            applied == applied_ids(base),
            state.events_view() == base + injected_records(items@, applied, step_number, i as int),
            state.canonical_view() == canonical,
            added == (injected_records(items@, applied, step_number, i as int).len() > 0),
            forall|j: int, m: Seq<char>| 0 <= j < i && #[trigger] carries_id(items@, j, m) ==> applied.union(
                fresh_ids(items@, applied, i as int),
            ).contains(m),
            acknowledge@.map_values(|s: String| s@) == ack_ids(items@.take(i as int)),
        decreases items.len() - i,
    {
        let item = &items[i];
        proof {
            lemma_applied_after_injection(base, items@, applied, step_number, i as int);
        }
        let duplicate = match &item.message_id {
            Some(m) => state.has_applied_inject(m.as_str()),
            None => false,
        };
        proof {
            match items@[i as int].message_id {
                Some(m) => {
                    if duplicate && !applied.contains(m@) {
                        let j = choose|j: int| 0 <= j < i && !is_duplicate(items@, applied, j) && #[trigger] carries_id(
                            items@,
                            j,
                            m@,
                        );
                        assert(carries_id(items@, j, m@));
                    }
                    if is_duplicate(items@, applied, i as int) && !applied.contains(m@) {
                        let j = choose|j: int| 0 <= j < i && #[trigger] carries_id(items@, j, m@);
                        assert(applied.union(fresh_ids(items@, applied, i as int)).contains(m@));
                    }
                },
                None => {},
            }
            assert(duplicate == is_duplicate(items@, applied, i as int));
        }
        if !duplicate {
            let message_id = match &item.message_id {
                Some(m) => Some(m.clone()),
                None => None,
            };
            let record = TranscriptRecord::UserInject {
                step_number,
                source: item.source,
                text: item.text.clone(),
                message_id,
            };
            proof {
                assert(record == inject_record(items@[i as int], step_number));
            }
            state.push_event(record);
            added = true;
        }
        match &item.action_result_id {
            Some(id) => acknowledge.push(id.clone()),
            None => {},
        }
        proof {
            let next = injected_records(items@, applied, step_number, i + 1);
            if !duplicate {
                assert(base + next =~= (base + injected_records(items@, applied, step_number, i as int)).push(
                    inject_record(items@[i as int], step_number),
                ));
            }
            assert forall|j: int, m: Seq<char>| 0 <= j < i + 1 && #[trigger] carries_id(items@, j, m) implies applied.union(
                fresh_ids(items@, applied, i + 1),
            ).contains(m) by {
                if j < i {
                    assert(applied.union(fresh_ids(items@, applied, i as int)).contains(m));
                    if fresh_ids(items@, applied, i as int).contains(m) {
                        let k = choose|k: int| 0 <= k < i && !is_duplicate(items@, applied, k) && #[trigger] carries_id(
                            items@,
                            k,
                            m,
                        );
                        assert(fresh_ids(items@, applied, i + 1).contains(m));
                    }
                } else if !is_duplicate(items@, applied, j) {
                    assert(fresh_ids(items@, applied, i + 1).contains(m));
                } else if !applied.contains(m) {
                    let k = choose|k: int| 0 <= k < j && #[trigger] carries_id(items@, k, m);
                    assert(applied.union(fresh_ids(items@, applied, i as int)).contains(m));
                    if fresh_ids(items@, applied, i as int).contains(m) {
                        let k2 = choose|k2: int| 0 <= k2 < i && !is_duplicate(items@, applied, k2) && #[trigger] carries_id(
                            items@,
                            k2,
                            m,
                        );
                        assert(fresh_ids(items@, applied, i + 1).contains(m));
                    }
                }
            }
            assert(items@.take(i + 1).drop_last() == items@.take(i as int));
            assert(acknowledge@.map_values(|s: String| s@) =~= ack_ids(items@.take(i + 1)));
        }
        i += 1;
    }
    proof {
        assert(items@.take(items@.len() as int) == items@);
    }
    (added, acknowledge)
}

/// Law: applying a batch whose items all carry message ids a second time
/// (against the transcript the first application left) adds no event: every
/// item is then a duplicate. The acknowledgements do not depend on the
/// transcript, so they are the same both times.
pub proof fn reapplying_a_batch_adds_nothing(events: Seq<TranscriptRecord>, items: Seq<PendingContext>, step: u32)
    requires
        forall|i: int| 0 <= i < items.len() ==> (#[trigger] items[i]).message_id is Some,
    ensures
        injected_records(
            items,
            applied_ids(events + injected_records(items, applied_ids(events), step, items.len() as int)),
            step,
            items.len() as int,
        ).len() == 0,
{
    let applied = applied_ids(events);
    let n = items.len() as int;
    lemma_applied_after_injection(events, items, applied, step, n);
    let applied2 = applied_ids(events + injected_records(items, applied, step, n));
    assert forall|i: int| 0 <= i < n implies is_duplicate(items, applied2, i) by {
        let m = items[i].message_id->0;
        assert(items[i].message_id is Some);
        if !is_duplicate(items, applied, i) {
            assert(carries_id(items, i, m@));
            assert(fresh_ids(items, applied, n).contains(m@));
        }
    }
    lemma_all_duplicates_add_nothing(items, applied2, step, n);
}

} // verus!
