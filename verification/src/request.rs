//! The provider-request view of one turn: a copy of the durable canonical
//! projection that may carry a retry hint or a trailing instruction, with
//! each raw media part tied back to its durable media input. Nothing done to
//! the request copy reaches the transcript.

use vstd::prelude::*;
use crate::media::{align_media_inputs, media_slot};
use crate::state::{ReActState, RetryNudge};
use crate::tool_batch::{attach_failure_nudge, last_tool_with_id, nudged_parts};
use crate::types::{CanonicalMessage, CanonicalRole, ContentPart};

verus! {

/// Two messages carry the same role, parts and call id.
pub open spec fn same_message(a: CanonicalMessage, b: CanonicalMessage) -> bool {
    &&& a.role == b.role
    &&& a.content@ == b.content@
    &&& a.tool_call_id == b.tool_call_id
}

/// Two transcripts hold the same messages in the same order.
pub open spec fn same_messages(a: Seq<CanonicalMessage>, b: Seq<CanonicalMessage>) -> bool {
    &&& a.len() == b.len()
    &&& forall|k: int| 0 <= k < a.len() ==> same_message(#[trigger] a[k], b[k])
}

/// `r` is the request copy of `canonical` with the optional retry hint
/// attached to the failed observation it answers (when that observation is
/// still in the transcript).
pub open spec fn nudged_projection(
    canonical: Seq<CanonicalMessage>,
    nudge: Option<RetryNudge>,
    r: Seq<CanonicalMessage>,
) -> bool {
    match nudge {
        None => same_messages(r, canonical),
        Some(n) => match last_tool_with_id(canonical, n.tool_call_id@) {
            None => same_messages(r, canonical),
            Some(j) => {
                &&& r.len() == canonical.len()
                &&& forall|k: int| 0 <= k < canonical.len() && k != j ==> same_message(#[trigger] r[k], canonical[k])
                &&& r[j].role == canonical[j].role
                &&& r[j].tool_call_id == canonical[j].tool_call_id
                &&& nudged_parts(canonical[j].content@, n.text@, r[j].content@)
            },
        },
    }
}

fn copy_part(p: &ContentPart) -> (r: ContentPart)
    ensures
        r == *p,
{
    match p {
        ContentPart::Text(t) => ContentPart::Text(t.clone()),
        ContentPart::Image { media_type, data } => ContentPart::Image {
            media_type: media_type.clone(),
            data: data.clone(),
        },
        ContentPart::Audio { media_type, data } => ContentPart::Audio {
            media_type: media_type.clone(),
            data: data.clone(),
        },
    }
}

fn copy_message(m: &CanonicalMessage) -> (r: CanonicalMessage)
    ensures
        same_message(r, *m),
{
    let mut content: Vec<ContentPart> = Vec::new();
    let mut i: usize = 0;
    while i < m.content.len()
        invariant
            i <= m.content@.len(),
            content@ == m.content@.take(i as int),
        decreases m.content.len() - i,
    {
        content.push(copy_part(&m.content[i]));
        proof {
            assert(m.content@.take(i + 1) == m.content@.take(i as int).push(m.content@[i as int]));
        }
        i += 1;
    }
    proof {
        assert(m.content@.take(m.content@.len() as int) == m.content@);
    }
    let tool_call_id = match &m.tool_call_id {
        Some(t) => Some(t.clone()),
        None => None,
    };
    CanonicalMessage { role: m.role, content, tool_call_id }
}

/// A copy of a transcript, message by message.
pub fn copy_messages(ms: &[CanonicalMessage]) -> (r: Vec<CanonicalMessage>)
    ensures
        same_messages(r@, ms@),
{
    let mut out: Vec<CanonicalMessage> = Vec::new();
    let mut i: usize = 0;
    while i < ms.len()
        invariant
            i <= ms@.len(),
            out@.len() == i,
            forall|k: int| 0 <= k < i ==> same_message(#[trigger] out@[k], ms@[k]),
        decreases ms.len() - i,
    {
        out.push(copy_message(&ms[i]));
        i += 1;
    }
    out
}

proof fn lemma_same_messages_same_target(a: Seq<CanonicalMessage>, b: Seq<CanonicalMessage>, id: Seq<char>)
    requires
        same_messages(a, b),
    ensures
        last_tool_with_id(a, id) == last_tool_with_id(b, id),
    decreases a.len(),
{
    if a.len() > 0 {
        assert(same_message(a[a.len() - 1], b[b.len() - 1]));
        assert(same_messages(a.drop_last(), b.drop_last())) by {
            assert forall|k: int| 0 <= k < a.drop_last().len() implies same_message(
                #[trigger] a.drop_last()[k],
                b.drop_last()[k],
            ) by {
                assert(same_message(a[k], b[k]));
            }
        }
        lemma_same_messages_same_target(a.drop_last(), b.drop_last(), id);
    }
}

proof fn lemma_target_in_range(msgs: Seq<CanonicalMessage>, id: Seq<char>)
    ensures
        last_tool_with_id(msgs, id) matches Some(j) ==> 0 <= j < msgs.len(),
    decreases msgs.len(),
{
    if msgs.len() > 0 {
        lemma_target_in_range(msgs.drop_last(), id);
    }
}

/// One immutable provider request.
pub struct RequestContext {
    messages: Vec<CanonicalMessage>,
    /// For part `j` of message `i`: the `(injection, input)` position of its
    /// durable media input, when it has one.
    media_slots: Vec<Vec<Option<(usize, usize)>>>,
}

impl RequestContext {
    pub closed spec fn messages_view(&self) -> Seq<CanonicalMessage> {
        self.messages@
    }

    /// The durable media position of part `j` of message `i`.
    pub closed spec fn slot(&self, i: int, j: int) -> Option<(usize, usize)> {
        self.media_slots@[i]@[j]
    }

    /// Every part of every message has its slot.
    pub closed spec fn wf(&self) -> bool {
        &&& self.media_slots@.len() == self.messages@.len()
        &&& forall|i: int| 0 <= i < self.messages@.len() ==> (#[trigger] self.media_slots@[i])@.len()
            == self.messages@[i].content@.len()
    }

    /// The request for the current durable projection with the staged
    /// retry hint attached to the copy; `media_groups[g]` is the number of
    /// durable media inputs of the g-th media-bearing injection since the
    /// last compaction.
    pub fn from_state(state: &ReActState, retry_nudge: Option<&RetryNudge>, media_groups: &[usize]) -> (r:
        RequestContext)
        ensures
            r.wf(),
            nudged_projection(
                state.canonical_view(),
                match retry_nudge {
                    Some(n) => Some(*n),
                    None => None,
                },
                r.messages_view(),
            ),
            forall|i: int, j: int|
                0 <= i < r.messages_view().len() && 0 <= j < r.messages_view()[i].content@.len() ==> #[trigger] r.slot(
                    i,
                    j,
                ) == media_slot(media_groups@, r.messages_view(), i, j),
    {
        let mut messages = copy_messages(state.canonical().as_slice());
        let ghost copied = messages@;
        match retry_nudge {
            Some(n) => {
                attach_failure_nudge(&mut messages, n.text.as_str(), Some(n.tool_call_id.as_str()));
                proof {
                    lemma_same_messages_same_target(copied, state.canonical_view(), n.tool_call_id@);
                    lemma_target_in_range(copied, n.tool_call_id@);
                    match last_tool_with_id(copied, n.tool_call_id@) {
                        Some(j) => {
                            assert forall|k: int|
                                0 <= k < state.canonical_view().len() && k != j implies same_message(
                                #[trigger] messages@[k],
                                state.canonical_view()[k],
                            ) by {
                                assert(same_message(copied[k], state.canonical_view()[k]));
                            }
                            assert(same_message(copied[j], state.canonical_view()[j]));
                        },
                        None => {},
                    }
                }
            },
            None => {},
        }
        let media_slots = align_media_inputs(media_groups, messages.as_slice());
        RequestContext { messages, media_slots }
    }

    /// A new request with a trailing provider-only user instruction; this
    /// request is left as it is, so instructions never accumulate.
    pub fn with_user_instruction(&self, instruction: String) -> (r: RequestContext)
        requires
            self.wf(),
        ensures
            r.wf(),
            r.messages_view().len() == self.messages_view().len() + 1,
            same_messages(r.messages_view().drop_last(), self.messages_view()),
            r.messages_view().last().role == CanonicalRole::User,
            r.messages_view().last().content@.len() == 1,
            r.messages_view().last().content@[0] matches ContentPart::Text(t) && t@ == instruction@,
            r.messages_view().last().tool_call_id is None,
            forall|i: int, j: int|
                0 <= i < self.messages_view().len() && 0 <= j < self.messages_view()[i].content@.len()
                    ==> #[trigger] r.slot(i, j) == self.slot(i, j),
            r.slot(self.messages_view().len() as int, 0) is None,
    {
        let mut messages = copy_messages(self.messages.as_slice());
        messages.push(CanonicalMessage::user_text(instruction));
        let mut media_slots: Vec<Vec<Option<(usize, usize)>>> = Vec::new();
        let mut i: usize = 0;
        while i < self.media_slots.len()
            invariant
                i <= self.media_slots@.len(),
                self.wf(),
                media_slots@.len() == i,
                forall|a: int| 0 <= a < i ==> (#[trigger] media_slots@[a])@ == self.media_slots@[a]@,
            decreases self.media_slots.len() - i,
        {
            let row = &self.media_slots[i];
            let mut copy: Vec<Option<(usize, usize)>> = Vec::new();
            let mut j: usize = 0;
            while j < row.len()
                invariant
                    j <= row@.len(),
                    copy@ == row@.take(j as int),
                decreases row.len() - j,
            {
                copy.push(row[j]);
                proof {
                    assert(row@.take(j + 1) == row@.take(j as int).push(row@[j as int]));
                }
                j += 1;
            }
            proof {
                assert(row@.take(row@.len() as int) == row@);
            }
            media_slots.push(copy);
            i += 1;
        }
        let mut last: Vec<Option<(usize, usize)>> = Vec::new();
        last.push(None);
        media_slots.push(last);
        proof {
            assert(messages@.drop_last() =~= messages@.take(self.messages@.len() as int));
            assert forall|k: int| 0 <= k < self.messages@.len() implies same_message(
                #[trigger] messages@.drop_last()[k],
                self.messages@[k],
            ) by {
                assert(messages@.drop_last()[k] == messages@[k]);
            }
            assert forall|a: int| 0 <= a < messages@.len() implies (#[trigger] media_slots@[a])@.len()
                == messages@[a].content@.len() by {
                if a < self.messages@.len() {
                    assert(same_message(messages@[a], self.messages@[a]));
                }
            }
        }
        RequestContext { messages, media_slots }
    }

    /// The request's messages.
    pub fn messages(&self) -> (r: &Vec<CanonicalMessage>)
        ensures
            r@ == self.messages_view(),
    {
        &self.messages
    }

    /// The durable media positions, one row per message.
    pub fn media_slots(&self) -> (r: &Vec<Vec<Option<(usize, usize)>>>)
        requires
            self.wf(),
        ensures
            r@.len() == self.messages_view().len(),
            forall|i: int, j: int|
                0 <= i < self.messages_view().len() && 0 <= j < self.messages_view()[i].content@.len()
                    ==> #[trigger] r@[i]@[j] == self.slot(i, j),
    {
        &self.media_slots
    }
}

} // verus!
