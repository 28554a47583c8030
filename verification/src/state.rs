//! State owned by one ReAct run: the durable transcript events, the
//! in-memory canonical projection, branch points into the events, and the
//! indexes kept alongside them.

use vstd::prelude::*;
use crate::keyed::SessionMap;
use crate::types::CanonicalMessage;

verus! {

/// Origin of a user-side injection.
#[derive(Debug, Clone, Copy, PartialEq, Eq, Structural)]
pub enum InjectSource {
    Steering,
    FollowUp,
    Answer,
    ActionResult,
    CrossSession,
}

/// One durable transcript event.
pub enum TranscriptRecord {
    Thought { step_number: u32, text: String },
    Reasoning { step_number: u32, text: String },
    ToolCall { step_number: u32, tool_name: String, tool_call_id: Option<String> },
    ToolResult { step_number: u32, tool_call_id: Option<String>, observation: String },
    UserInject { step_number: u32, source: InjectSource, text: String, message_id: Option<String> },
    MediaPlan { step_number: u32 },
    CompactSummary { summary: String, tokens_before: u32, tokens_after: u32, episode_id: String },
}

/// The step an event belongs to (compaction summaries belong to step 0).
pub open spec fn record_step_spec(r: TranscriptRecord) -> u32 {
    match r {
        TranscriptRecord::Thought { step_number, .. } => step_number,
        TranscriptRecord::Reasoning { step_number, .. } => step_number,
        TranscriptRecord::ToolCall { step_number, .. } => step_number,
        TranscriptRecord::ToolResult { step_number, .. } => step_number,
        TranscriptRecord::UserInject { step_number, .. } => step_number,
        TranscriptRecord::MediaPlan { step_number } => step_number,
        TranscriptRecord::CompactSummary { .. } => 0,
    }
}

/// The step number an event is persisted under.
pub fn record_step(r: &TranscriptRecord) -> (s: u32)
    ensures
        s == record_step_spec(*r),
{
    match r {
        TranscriptRecord::Thought { step_number, .. } => *step_number,
        TranscriptRecord::Reasoning { step_number, .. } => *step_number,
        TranscriptRecord::ToolCall { step_number, .. } => *step_number,
        TranscriptRecord::ToolResult { step_number, .. } => *step_number,
        TranscriptRecord::UserInject { step_number, .. } => *step_number,
        TranscriptRecord::MediaPlan { step_number } => *step_number,
        TranscriptRecord::CompactSummary { .. } => 0,
    }
}

/// Indexes of events that can carry durable media metadata: injections,
/// media plans and the latest compaction summary, counted from that summary.
pub open spec fn media_indices(events: Seq<TranscriptRecord>) -> Seq<usize>
    decreases events.len(),
{
    if events.len() == 0 {
        Seq::empty()
    } else {
        let prev = media_indices(events.drop_last());
        let i = (events.len() - 1) as usize;
        match events.last() {
            TranscriptRecord::CompactSummary { .. } => seq![i],
            TranscriptRecord::UserInject { .. } => prev.push(i),
            TranscriptRecord::MediaPlan { .. } => prev.push(i),
            _ => prev,
        }
    }
}

/// Event `i` is an injection carrying message id `id`.
pub open spec fn injects_id(events: Seq<TranscriptRecord>, id: Seq<char>, i: int) -> bool {
    0 <= i < events.len() && (events[i] matches TranscriptRecord::UserInject {
        message_id: Some(m),
        ..
    } && m@ == id)
}

/// Message ids of all injections among the events.
pub open spec fn applied_ids(events: Seq<TranscriptRecord>) -> Set<Seq<char>> {
    Set::new(|id: Seq<char>| exists|i: int| injects_id(events, id, i))
}

/// A branch point: the event cursor a step can be rolled back to.
pub struct BranchPoint {
    pub event_cursor: u64,
    pub step_number: u32,
    pub last_msg_at: Option<String>,
}

/// A retry hint for the next provider request only; never part of the
/// transcript.
pub struct RetryNudge {
    pub tool_call_id: String,
    pub text: String,
}

/// Source of projection generations: every rebuilt state gets a new one.
pub struct GenerationCounter {
    next: u64,
}

impl GenerationCounter {
    pub closed spec fn next_spec(&self) -> u64 {
        self.next
    }

    /// A counter whose first generation is 1.
    pub fn new() -> (r: GenerationCounter)
        ensures
            r.next_spec() == 1,
    {
        GenerationCounter { next: 1 }
    }

    /// Take the next generation.
    pub fn take(&mut self) -> (r: u64)
        ensures
            r == old(self).next_spec(),
            final(self).next_spec() == old(self).next_spec().wrapping_add(1),
    {
        let g = self.next;
        self.next = self.next.wrapping_add(1);
        g
    }
}

/// Mutable state for one session run.
pub struct ReActState {
    events: Vec<TranscriptRecord>,
    media_event_indices: Vec<usize>,
    canonical: Vec<CanonicalMessage>,
    branch_points: Vec<BranchPoint>,
    applied_inject_message_ids: SessionMap<()>,
    canonical_revision: u64,
    canonical_generation: u64,
    retry_nudge: Option<RetryNudge>,
}

/// No two branch points share a step.
pub open spec fn distinct_steps(bps: Seq<BranchPoint>) -> bool {
    forall|i: int, j: int| 0 <= i < bps.len() && 0 <= j < bps.len() && i != j ==> bps[i].step_number
        != bps[j].step_number
}

impl ReActState {
    /// The indexes agree with the events.
    pub closed spec fn wf(&self) -> bool {
        &&& self.media_event_indices@ == media_indices(self.events@)
        &&& self.applied_inject_message_ids.wf()
        &&& self.applied_inject_message_ids.capacity_spec() == usize::MAX
        &&& self.applied_inject_message_ids@.dom() == applied_ids(self.events@)
        &&& distinct_steps(self.branch_points@)
    }

    pub closed spec fn events_view(&self) -> Seq<TranscriptRecord> {
        self.events@
    }

    pub closed spec fn canonical_view(&self) -> Seq<CanonicalMessage> {
        self.canonical@
    }

    pub closed spec fn branch_view(&self) -> Seq<BranchPoint> {
        self.branch_points@
    }

    /// The transcript events.
    pub fn events(&self) -> (r: &Vec<TranscriptRecord>)
        ensures
            r@ == self.events_view(),
    {
        &self.events
    }

    /// The canonical projection.
    pub fn canonical(&self) -> (r: &Vec<CanonicalMessage>)
        ensures
            r@ == self.canonical_view(),
    {
        &self.canonical
    }

    /// The branch points.
    pub fn branch_points(&self) -> (r: &Vec<BranchPoint>)
        ensures
            r@ == self.branch_view(),
    {
        &self.branch_points
    }

    /// Indexes of the events that can carry media metadata.
    pub fn media_event_indices(&self) -> (r: &Vec<usize>)
        requires
            self.wf(),
        ensures
            r@ == media_indices(self.events_view()),
    {
        &self.media_event_indices
    }

    /// Append a message to the canonical projection.
    pub fn push_canonical(&mut self, message: CanonicalMessage)
        ensures
            final(self).canonical_view() == old(self).canonical_view().push(message),
            final(self).events_view() == old(self).events_view(),
            final(self).branch_view() == old(self).branch_view(),
            final(self).revision() == old(self).revision().wrapping_add(1),
            final(self).generation() == old(self).generation(),
            final(self).nudge() == old(self).nudge(),
            old(self).wf() ==> final(self).wf(),
    {
        self.canonical.push(message);
        self.mark_canonical_append();
    }

    /// Replace the canonical projection (a non-append edit).
    pub fn replace_canonical(&mut self, canonical: Vec<CanonicalMessage>)
        ensures
            final(self).canonical_view() == canonical@,
            final(self).events_view() == old(self).events_view(),
            final(self).branch_view() == old(self).branch_view(),
            final(self).revision() == old(self).revision().wrapping_add(1),
            final(self).generation() == old(self).generation(),
            final(self).nudge() == old(self).nudge(),
            old(self).wf() ==> final(self).wf(),
    {
        self.canonical = canonical;
        self.mark_canonical_changed();
    }

    pub closed spec fn revision(&self) -> u64 {
        self.canonical_revision
    }

    pub closed spec fn generation(&self) -> u64 {
        self.canonical_generation
    }

    pub closed spec fn nudge(&self) -> Option<RetryNudge> {
        self.retry_nudge
    }

    /// The state for loaded events, their canonical projection and branch
    /// points, with a fresh projection generation.
    pub fn new(
        events: Vec<TranscriptRecord>,
        canonical: Vec<CanonicalMessage>,
        branch_points: Vec<BranchPoint>,
        generations: &mut GenerationCounter,
    ) -> (r: ReActState)
        requires
            distinct_steps(branch_points@),
        ensures
            r.wf(),
            r.events_view() == events@,
            r.canonical_view() == canonical@,
            r.branch_view() == branch_points@,
            r.revision() == 0,
            r.generation() == old(generations).next_spec(),
            final(generations).next_spec() == old(generations).next_spec().wrapping_add(1),
            r.nudge() is None,
    {
        let mut state = ReActState {
            events: Vec::new(),
            media_event_indices: Vec::new(),
            canonical,
            branch_points,
            applied_inject_message_ids: SessionMap::new(),
            canonical_revision: 0,
            canonical_generation: generations.take(),
            retry_nudge: None,
        };
        proof {
            assert(state.events@ =~= Seq::<TranscriptRecord>::empty());
            assert(state.applied_inject_message_ids@.dom() =~= applied_ids(state.events@));
        }
        let ghost all = events@;
        let ghost canon = state.canonical@;
        let ghost bps = state.branch_points@;
        let mut rest = events;
        while rest.len() > 0
            invariant
                state.wf(),
                state.events@ + rest@ == all,
                state.canonical@ == canon,
                state.branch_points@ == bps,
                state.canonical_revision == 0,
                state.canonical_generation == old(generations).next_spec(),
                state.retry_nudge is None,
            decreases rest.len(),
        {
            let ghost before_rest = rest@;
            let ghost before_events = state.events@;
            let e = rest.remove(0);
            state.push_event(e);
            proof {
                assert(before_rest == seq![e] + rest@);
                assert(state.events@ + rest@ =~= before_events + before_rest);
            }
        }
        proof {
            assert(state.events@ =~= all);
        }
        state
    }

    /// Revision of the canonical projection (0 for a freshly built state).
    pub fn canonical_revision(&self) -> (r: u64)
        ensures
            r == self.revision(),
    {
        self.canonical_revision
    }

    /// Identity of this in-memory projection.
    pub fn canonical_generation(&self) -> (r: u64)
        ensures
            r == self.generation(),
    {
        self.canonical_generation
    }

    /// Mark a non-append canonical edit.
    pub fn mark_canonical_changed(&mut self)
        ensures
            final(self).revision() == old(self).revision().wrapping_add(1),
            final(self).events_view() == old(self).events_view(),
            final(self).canonical_view() == old(self).canonical_view(),
            final(self).branch_view() == old(self).branch_view(),
            final(self).generation() == old(self).generation(),
            final(self).nudge() == old(self).nudge(),
            old(self).wf() ==> final(self).wf(),
    {
        self.canonical_revision = self.canonical_revision.wrapping_add(1);
    }

    /// Mark one message appended to the canonical projection.
    pub fn mark_canonical_append(&mut self)
        ensures
            final(self).revision() == old(self).revision().wrapping_add(1),
            final(self).events_view() == old(self).events_view(),
            final(self).canonical_view() == old(self).canonical_view(),
            final(self).branch_view() == old(self).branch_view(),
            final(self).generation() == old(self).generation(),
            final(self).nudge() == old(self).nudge(),
            old(self).wf() ==> final(self).wf(),
    {
        self.mark_canonical_changed();
    }

    /// Stage a retry hint for the next provider request.
    pub fn stage_retry_nudge(&mut self, tool_call_id: String, text: String)
        ensures
            final(self).nudge() == Some(RetryNudge { tool_call_id, text }),
            final(self).events_view() == old(self).events_view(),
            final(self).canonical_view() == old(self).canonical_view(),
            final(self).branch_view() == old(self).branch_view(),
            final(self).revision() == old(self).revision(),
            final(self).generation() == old(self).generation(),
            old(self).wf() ==> final(self).wf(),
    {
        self.retry_nudge = Some(RetryNudge { tool_call_id, text });
    }

    /// Take the staged retry hint, leaving none.
    pub fn take_retry_nudge(&mut self) -> (r: Option<RetryNudge>)
        ensures
            r == old(self).nudge(),
            final(self).nudge() is None,
            final(self).events_view() == old(self).events_view(),
            final(self).canonical_view() == old(self).canonical_view(),
            final(self).branch_view() == old(self).branch_view(),
            final(self).revision() == old(self).revision(),
            final(self).generation() == old(self).generation(),
            old(self).wf() ==> final(self).wf(),
    {
        self.retry_nudge.take()
    }

    /// An injection with this message id is already in the transcript.
    pub fn has_applied_inject(&self, message_id: &str) -> (r: bool)
        requires
            self.wf(),
        ensures
            r == applied_ids(self.events_view()).contains(message_id@),
    {
        self.applied_inject_message_ids.contains_key(message_id)
    }

    /// Append one event, keeping the media index and the applied-id index in
    /// step with the events.
    pub fn push_event(&mut self, record: TranscriptRecord)
        requires
            old(self).wf(),
        ensures
            final(self).wf(),
            final(self).events_view() == old(self).events_view().push(record),
            final(self).canonical_view() == old(self).canonical_view(),
            final(self).branch_view() == old(self).branch_view(),
            final(self).revision() == old(self).revision(),
            final(self).generation() == old(self).generation(),
            final(self).nudge() == old(self).nudge(),
    {
        let ghost old_events = self.events@;
        let index = self.events.len();
        let (media, compaction) = match &record {
            TranscriptRecord::UserInject { .. } => (true, false),
            TranscriptRecord::MediaPlan { .. } => (true, false),
            TranscriptRecord::CompactSummary { .. } => (true, true),
            _ => (false, false),
        };
        if compaction {
            self.media_event_indices.clear();
        }
        match &record {
            TranscriptRecord::UserInject { message_id: Some(m), .. } => {
                self.applied_inject_message_ids.insert(m.clone(), ());
            },
            _ => {},
        }
        self.events.push(record);
        if media {
            self.media_event_indices.push(index);
        }
        proof {
            let ev = self.events@;
            assert(ev.drop_last() == old_events);
            assert(self.media_event_indices@ =~= media_indices(ev));
            assert forall|id: Seq<char>| #[trigger] applied_ids(ev).contains(id) <==> self.applied_inject_message_ids@.dom().contains(id) by {
                if applied_ids(ev).contains(id) {
                    let i = choose|i: int| injects_id(ev, id, i);
                    if i < old_events.len() {
                        assert(injects_id(old_events, id, i));
                    }
                }
                if applied_ids(old_events).contains(id) {
                    let i = choose|i: int| injects_id(old_events, id, i);
                    assert(injects_id(ev, id, i));
                }
                if self.applied_inject_message_ids@.dom().contains(id) && !applied_ids(old_events).contains(id) {
                    assert(injects_id(ev, id, ev.len() - 1));
                }
            }
            assert(self.applied_inject_message_ids@.dom() =~= applied_ids(ev));
        }
    }

    /// Replace the transcript root after compaction: the summary record
    /// becomes the only event, the canonical projection is replaced, and
    /// every branch point into the discarded prefix is invalidated.
    pub fn replace_with_compaction(&mut self, record: TranscriptRecord, compacted: Vec<CanonicalMessage>)
        requires
            old(self).wf(),
        ensures
            final(self).wf(),
            final(self).events_view() == seq![record],
            final(self).canonical_view() == compacted@,
            final(self).branch_view().len() == 0,
            final(self).revision() == old(self).revision().wrapping_add(1),
            final(self).generation() == old(self).generation(),
            final(self).nudge() == old(self).nudge(),
    {
        self.events = Vec::new();
        self.media_event_indices = Vec::new();
        self.applied_inject_message_ids = SessionMap::new();
        proof {
            assert(self.events@ =~= Seq::<TranscriptRecord>::empty());
            assert(self.applied_inject_message_ids@.dom() =~= applied_ids(self.events@));
            assert(self.media_event_indices@ =~= media_indices(self.events@));
        }
        self.branch_points = Vec::new();
        self.push_event(record);
        self.canonical = compacted;
        self.mark_canonical_changed();
        proof {
            assert(self.events@ =~= seq![record]);
        }
    }

    /// The branch point of `step_number` at the current end of the
    /// transcript, with the durable message cutoff `last_msg_at`.
    pub fn branch_point_here(&self, step_number: u32, last_msg_at: Option<String>) -> (r: BranchPoint)
        ensures
            r.event_cursor == self.events_view().len(),
            r.step_number == step_number,
            r.last_msg_at == last_msg_at,
    {
        BranchPoint { event_cursor: self.events.len() as u64, step_number, last_msg_at }
    }

    /// Record the branch point of a step, replacing an older one of that step.
    pub fn insert_branch_point(&mut self, bp: BranchPoint)
        requires
            old(self).wf(),
        ensures
            final(self).wf(),
            exists|i: int| 0 <= i < final(self).branch_view().len() && final(self).branch_view()[i] == bp,
            forall|i: int| 0 <= i < old(self).branch_view().len() && old(self).branch_view()[i].step_number
                != bp.step_number ==> final(self).branch_view().contains(old(self).branch_view()[i]),
            forall|i: int| 0 <= i < final(self).branch_view().len() ==> (final(self).branch_view()[i] == bp
                || old(self).branch_view().contains(final(self).branch_view()[i])),
            final(self).events_view() == old(self).events_view(),
            final(self).canonical_view() == old(self).canonical_view(),
            final(self).revision() == old(self).revision(),
            final(self).generation() == old(self).generation(),
            final(self).nudge() == old(self).nudge(),
    {
        let ghost old_bps = self.branch_points@;
        let pos = self.branch_point_index(bp.step_number);
        let found = pos.is_some();
        let i: usize = match pos {
            Some(k) => k,
            None => 0,
        };
        if found && i < self.branch_points.len() {
            self.branch_points.set(i, bp);
            proof {
                let s = self.branch_points@;
                assert(s[i as int] == bp);
                assert forall|a: int, b: int| 0 <= a < s.len() && 0 <= b < s.len() && a != b implies s[a].step_number != s[b].step_number by {
                    if a != i && b != i {
                        assert(s[a] == old_bps[a] && s[b] == old_bps[b]);
                    }
                }
                assert forall|k: int| 0 <= k < old_bps.len() && old_bps[k].step_number != bp.step_number implies s.contains(old_bps[k]) by {
                    assert(k != i);
                    assert(s[k] == old_bps[k]);
                }
                assert forall|k: int| 0 <= k < s.len() implies (s[k] == bp || old_bps.contains(s[k])) by {
                    if k != i {
                        assert(s[k] == old_bps[k]);
                    }
                }
            }
        } else {
            self.branch_points.push(bp);
            proof {
                let s = self.branch_points@;
                assert(s[s.len() - 1] == bp);
                assert forall|a: int, b: int| 0 <= a < s.len() && 0 <= b < s.len() && a != b implies s[a].step_number != s[b].step_number by {
                    if a < old_bps.len() && b < old_bps.len() {
                        assert(s[a] == old_bps[a] && s[b] == old_bps[b]);
                    }
                }
                assert forall|k: int| 0 <= k < old_bps.len() && old_bps[k].step_number != bp.step_number implies s.contains(old_bps[k]) by {
                    assert(s[k] == old_bps[k]);
                }
                assert forall|k: int| 0 <= k < s.len() implies (s[k] == bp || old_bps.contains(s[k])) by {
                    if k < old_bps.len() {
                        assert(s[k] == old_bps[k]);
                    }
                }
            }
        }
    }

    fn branch_point_index(&self, step: u32) -> (r: Option<usize>)
        ensures
            match r {
                Some(k) => k < self.branch_points@.len() && self.branch_points@[k as int].step_number == step,
                None => forall|k: int| 0 <= k < self.branch_points@.len() ==> self.branch_points@[k].step_number != step,
            },
    {
        let mut i: usize = 0;
        while i < self.branch_points.len()
            invariant
                i <= self.branch_points@.len(),
                forall|k: int| 0 <= k < i ==> self.branch_points@[k].step_number != step,
            decreases self.branch_points.len() - i,
        {
            if self.branch_points[i].step_number == step {
                return Some(i);
            }
            i += 1;
        }
        None
    }

    /// A branch point exists for `step`.
    pub fn has_branch_point(&self, step: u32) -> (r: bool)
        ensures
            r == exists|i: int| 0 <= i < self.branch_view().len() && self.branch_view()[i].step_number == step,
    {
        let mut i: usize = 0;
        while i < self.branch_points.len()
            invariant
                i <= self.branch_points@.len(),
                forall|k: int| 0 <= k < i ==> self.branch_points@[k].step_number != step,
            decreases self.branch_points.len() - i,
        {
            if self.branch_points[i].step_number == step {
                return true;
            }
            i += 1;
        }
        false
    }
}

/// Branch points ordered by step, as the durable timeline records them.
pub open spec fn sorted_by_step(bps: Seq<BranchPoint>) -> bool {
    forall|a: int, b: int| 0 <= a < b < bps.len() ==> bps[a].step_number <= bps[b].step_number
}

/// Order branch points by step (for seeding the durable timeline). The
/// result holds exactly the given branch points.
pub fn branch_points_by_step(bps: Vec<BranchPoint>) -> (r: Vec<BranchPoint>)
    ensures
        sorted_by_step(r@),
        r@.len() == bps@.len(),
        r@.to_multiset() == bps@.to_multiset(),
{
    let ghost orig = bps@;
    let mut rest = bps;
    let mut out: Vec<BranchPoint> = Vec::new();
    proof {
        assert(out@ + rest@ =~= orig);
    }
    while rest.len() > 0
        invariant
            sorted_by_step(out@),
            forall|a: int, b: int| 0 <= a < out@.len() && 0 <= b < rest@.len() ==> out@[a].step_number
                <= rest@[b].step_number,
            (out@ + rest@).to_multiset() == orig.to_multiset(),
            out@.len() + rest@.len() == orig.len(),
        decreases rest.len(),
    {
        let mut m: usize = 0;
        let mut j: usize = 1;
        while j < rest.len()
            invariant
                0 <= m < rest@.len(),
                1 <= j <= rest@.len(),
                m < j,
                forall|k: int| 0 <= k < j ==> rest@[m as int].step_number <= rest@[k].step_number,
            decreases rest.len() - j,
        {
            if rest[j].step_number < rest[m].step_number {
                m = j;
            }
            j += 1;
        }
        let ghost before_out = out@;
        let ghost before_rest = rest@;
        let x = rest.remove(m);
        out.push(x);
        proof {
            assert(before_rest == before_rest.subrange(0, m as int) + seq![x] + before_rest.subrange(m + 1, before_rest.len() as int));
            assert(rest@ == before_rest.subrange(0, m as int) + before_rest.subrange(m + 1, before_rest.len() as int));
            vstd::seq_lib::lemma_multiset_commutative(before_out, before_rest);
            vstd::seq_lib::lemma_multiset_commutative(out@, rest@);
            vstd::seq_lib::lemma_multiset_commutative(before_rest.subrange(0, m as int), seq![x]);
            vstd::seq_lib::lemma_multiset_commutative(before_rest.subrange(0, m as int) + seq![x], before_rest.subrange(m + 1, before_rest.len() as int));
            vstd::seq_lib::lemma_multiset_commutative(before_rest.subrange(0, m as int), before_rest.subrange(m + 1, before_rest.len() as int));
            vstd::seq_lib::lemma_multiset_commutative(before_out, seq![x]);
            assert(out@ == before_out.push(x));
            assert(before_out.push(x) =~= before_out + seq![x]);
            assert forall|a: int, b: int| 0 <= a < out@.len() && 0 <= b < rest@.len() implies out@[a].step_number
                <= rest@[b].step_number by {
                if b < m {
                    assert(rest@[b] == before_rest[b]);
                } else {
                    assert(rest@[b] == before_rest[b + 1]);
                }
                if a < before_out.len() {
                    assert(out@[a] == before_out[a]);
                }
            }
        }
    }
    proof {
        assert(out@ + rest@ =~= out@);
    }
    out
}

} // verus!
