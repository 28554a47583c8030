//! Bounded in-process metrics for the live ReAct loop: wrapping event
//! counters and fixed-bucket latency histograms, with percentiles read at
//! bucket resolution. Samples carry phase identity only, never content.

use vstd::prelude::*;

verus! {

/// Number of latency buckets.
pub const BUCKET_COUNT: usize = 16;

/// Number of measured phases.
pub const PHASE_COUNT: usize = 11;

/// Number of event counters.
pub const COUNTER_COUNT: usize = 5;

/// `a + b` modulo 2^64, as atomic increments behave.
pub open spec fn wrap_add(a: u64, b: u64) -> u64 {
    ((a + b) % 0x1_0000_0000_0000_0000) as u64
}

/// `a - b` modulo 2^64.
pub open spec fn wrap_sub(a: u64, b: u64) -> u64 {
    ((a - b + 0x1_0000_0000_0000_0000) % 0x1_0000_0000_0000_0000) as u64
}

/// `a + b`, held at `u64::MAX`.
pub open spec fn sat_add(a: u64, b: u64) -> u64 {
    if a + b > u64::MAX {
        u64::MAX
    } else {
        (a + b) as u64
    }
}

/// `a * b`, held at `u64::MAX`.
pub open spec fn sat_mul(a: u64, b: u64) -> u64 {
    if a * b > u64::MAX {
        u64::MAX
    } else {
        (a * b) as u64
    }
}

/// Upper bound, in milliseconds, of latency bucket `i`; the last bucket
/// takes every larger sample.
pub open spec fn bucket_bound_spec(i: int) -> u64 {
    if i <= 0 {
        1
    } else if i == 1 {
        2
    } else if i == 2 {
        5
    } else if i == 3 {
        10
    } else if i == 4 {
        25
    } else if i == 5 {
        50
    } else if i == 6 {
        100
    } else if i == 7 {
        250
    } else if i == 8 {
        500
    } else if i == 9 {
        1_000
    } else if i == 10 {
        2_500
    } else if i == 11 {
        5_000
    } else if i == 12 {
        10_000
    } else if i == 13 {
        30_000
    } else if i == 14 {
        60_000
    } else {
        u64::MAX
    }
}

/// Upper bound of bucket `i`.
pub fn bucket_bound(i: usize) -> (r: u64)
    requires
        i < BUCKET_COUNT,
    ensures
        r == bucket_bound_spec(i as int),
{
    match i {
        0 => 1,
        1 => 2,
        2 => 5,
        3 => 10,
        4 => 25,
        5 => 50,
        6 => 100,
        7 => 250,
        8 => 500,
        9 => 1_000,
        10 => 2_500,
        11 => 5_000,
        12 => 10_000,
        13 => 30_000,
        14 => 60_000,
        _ => u64::MAX,
    }
}

/// The first bucket, from `i` on, whose bound admits `ms`.
pub open spec fn first_bucket_from(ms: u64, i: int) -> int
    decreases BUCKET_COUNT - i,
{
    if i >= BUCKET_COUNT - 1 {
        BUCKET_COUNT - 1
    } else if ms <= bucket_bound_spec(i) {
        i
    } else {
        first_bucket_from(ms, i + 1)
    }
}

/// The bucket a sample of `ms` milliseconds is counted in.
pub open spec fn bucket_of(ms: u64) -> int {
    first_bucket_from(ms, 0)
}

/// Index of the bucket that counts a sample of `ms` milliseconds.
pub fn bucket_index(ms: u64) -> (r: usize)
    ensures
        r as int == bucket_of(ms),
        r < BUCKET_COUNT,
        ms <= bucket_bound_spec(r as int),
{
    let mut i: usize = 0;
    while i < BUCKET_COUNT - 1
        invariant
            i <= BUCKET_COUNT - 1,
            first_bucket_from(ms, 0) == first_bucket_from(ms, i as int),
        decreases BUCKET_COUNT - i,
    {
        if ms <= bucket_bound(i) {
            return i;
        }
        i += 1;
    }
    i
}

/// Saturating count of the samples in buckets `0..i`.
pub open spec fn seen_through(buckets: Seq<u64>, i: int) -> u64
    decreases i,
{
    if i <= 0 {
        0
    } else {
        sat_add(seen_through(buckets, i - 1), buckets[i - 1])
    }
}

/// Bound of the first bucket, from `i` on, by which `rank` samples were seen.
pub open spec fn bound_reaching(buckets: Seq<u64>, rank: u64, i: int) -> u64
    decreases BUCKET_COUNT - i,
{
    if i >= BUCKET_COUNT {
        u64::MAX
    } else if seen_through(buckets, i + 1) >= rank {
        bucket_bound_spec(i)
    } else {
        bound_reaching(buckets, rank, i + 1)
    }
}

/// Rank of the `pct`-th percentile among `count` samples (rounded up).
pub open spec fn percentile_rank(count: u64, pct: u64) -> u64 {
    (sat_add(sat_mul(count, pct), 99) / 100) as u64
}

/// The `pct`-th percentile of a histogram, at bucket resolution: the bound of
/// the first bucket by which that rank is reached; 0 when nothing was seen.
pub open spec fn percentile_spec(buckets: Seq<u64>, count: u64, pct: u64) -> u64 {
    if count == 0 {
        0
    } else {
        bound_reaching(buckets, percentile_rank(count, pct), 0)
    }
}

fn saturating_mul(a: u64, b: u64) -> (r: u64)
    ensures
        r == sat_mul(a, b),
{
    match a.checked_mul(b) {
        Some(v) => v,
        None => u64::MAX,
    }
}

/// Percentile of a 16-bucket histogram holding `count` samples.
pub fn percentile(buckets: &[u64], count: u64, pct: u64) -> (r: u64)
    requires
        buckets@.len() == BUCKET_COUNT,
    ensures
        r == percentile_spec(buckets@, count, pct),
{
    if count == 0 {
        return 0;
    }
    let rank = saturating_mul(count, pct).saturating_add(99) / 100;
    let mut seen: u64 = 0;
    let mut i: usize = 0;
    while i < BUCKET_COUNT
        invariant
            i <= BUCKET_COUNT,
            buckets@.len() == BUCKET_COUNT,
            count > 0,
            rank == percentile_rank(count, pct),
            seen == seen_through(buckets@, i as int),
            bound_reaching(buckets@, rank, 0) == bound_reaching(buckets@, rank, i as int),
        decreases BUCKET_COUNT - i,
    {
        seen = seen.saturating_add(buckets[i]);
        if seen >= rank {
            return bucket_bound(i);
        }
        i += 1;
    }
    u64::MAX
}

/// Bucket bounds grow with the index.
pub proof fn lemma_bounds_increase(i: int, j: int)
    requires
        0 <= i <= j,
    ensures
        bucket_bound_spec(i) <= bucket_bound_spec(j),
{
}

proof fn lemma_reaching_at_least_bound(buckets: Seq<u64>, rank: u64, i: int)
    requires
        0 <= i,
    ensures
        bound_reaching(buckets, rank, i) >= bucket_bound_spec(i),
    decreases BUCKET_COUNT - i,
{
    if i < BUCKET_COUNT && seen_through(buckets, i + 1) < rank {
        lemma_reaching_at_least_bound(buckets, rank, i + 1);
        lemma_bounds_increase(i, i + 1);
    }
}

proof fn lemma_reaching_monotone(buckets: Seq<u64>, r1: u64, r2: u64, i: int)
    requires
        0 <= i,
        r1 <= r2,
    ensures
        bound_reaching(buckets, r1, i) <= bound_reaching(buckets, r2, i),
    decreases BUCKET_COUNT - i,
{
    if i < BUCKET_COUNT {
        if seen_through(buckets, i + 1) >= r2 {
        } else if seen_through(buckets, i + 1) >= r1 {
            lemma_reaching_at_least_bound(buckets, r2, i + 1);
            lemma_bounds_increase(i, i + 1);
        } else {
            lemma_reaching_monotone(buckets, r1, r2, i + 1);
        }
    }
}

/// A higher percentile never reads lower than a smaller one of the same
/// histogram (so p50 is at most p95).
pub proof fn percentile_is_monotone(buckets: Seq<u64>, count: u64, p1: u64, p2: u64)
    requires
        p1 <= p2,
    ensures
        percentile_spec(buckets, count, p1) <= percentile_spec(buckets, count, p2),
{
    if count > 0 {
        assert(count * p1 <= count * p2) by (nonlinear_arith)
            requires
                p1 <= p2,
        ;
        assert(sat_mul(count, p1) <= sat_mul(count, p2));
        assert(sat_add(sat_mul(count, p1), 99) <= sat_add(sat_mul(count, p2), 99));
        assert(percentile_rank(count, p1) <= percentile_rank(count, p2)) by (nonlinear_arith)
            requires
                sat_add(sat_mul(count, p1), 99) <= sat_add(sat_mul(count, p2), 99),
                percentile_rank(count, p1) == sat_add(sat_mul(count, p1), 99) / 100,
                percentile_rank(count, p2) == sat_add(sat_mul(count, p2), 99) / 100,
        ;
        lemma_reaching_monotone(buckets, percentile_rank(count, p1), percentile_rank(count, p2), 0);
    }
}

/// A ReAct boundary whose latency is measured.
#[derive(Debug, Clone, Copy, PartialEq, Eq, Structural)]
pub enum Phase {
    ContextInject,
    TokenEstimate,
    RequestContext,
    FirstToken,
    LlmStream,
    ToolAdmission,
    ToolExecution,
    OrderedCommit,
    EventAppend,
    Projection,
    Snapshot,
}

/// Slot of a phase.
pub open spec fn phase_index(p: Phase) -> int {
    match p {
        Phase::ContextInject => 0,
        Phase::TokenEstimate => 1,
        Phase::RequestContext => 2,
        Phase::FirstToken => 3,
        Phase::LlmStream => 4,
        Phase::ToolAdmission => 5,
        Phase::ToolExecution => 6,
        Phase::OrderedCommit => 7,
        Phase::EventAppend => 8,
        Phase::Projection => 9,
        Phase::Snapshot => 10,
    }
}

/// Name of a phase in debug events.
pub open spec fn phase_name(p: Phase) -> Seq<char> {
    match p {
        Phase::ContextInject => "context_inject"@,
        Phase::TokenEstimate => "token_estimate"@,
        Phase::RequestContext => "request_context"@,
        Phase::FirstToken => "first_token"@,
        Phase::LlmStream => "llm_stream"@,
        Phase::ToolAdmission => "tool_admission"@,
        Phase::ToolExecution => "tool_execution"@,
        Phase::OrderedCommit => "ordered_commit"@,
        Phase::EventAppend => "event_append"@,
        Phase::Projection => "projection"@,
        Phase::Snapshot => "snapshot"@,
    }
}

impl Phase {
    /// Slot of this phase.
    pub fn index(self) -> (r: usize)
        ensures
            r as int == phase_index(self),
            r < PHASE_COUNT,
    {
        match self {
            Phase::ContextInject => 0,
            Phase::TokenEstimate => 1,
            Phase::RequestContext => 2,
            Phase::FirstToken => 3,
            Phase::LlmStream => 4,
            Phase::ToolAdmission => 5,
            Phase::ToolExecution => 6,
            Phase::OrderedCommit => 7,
            Phase::EventAppend => 8,
            Phase::Projection => 9,
            Phase::Snapshot => 10,
        }
    }

    /// Name of this phase.
    pub fn as_str(self) -> (r: &'static str)
        ensures
            r@ == phase_name(self),
    {
        match self {
            Phase::ContextInject => "context_inject",
            Phase::TokenEstimate => "token_estimate",
            Phase::RequestContext => "request_context",
            Phase::FirstToken => "first_token",
            Phase::LlmStream => "llm_stream",
            Phase::ToolAdmission => "tool_admission",
            Phase::ToolExecution => "tool_execution",
            Phase::OrderedCommit => "ordered_commit",
            Phase::EventAppend => "event_append",
            Phase::Projection => "projection",
            Phase::Snapshot => "snapshot",
        }
    }
}

/// A loop event that is counted.
#[derive(Debug, Clone, Copy, PartialEq, Eq, Structural)]
pub enum Counter {
    TurnStarts,
    FirstTokens,
    StreamChunks,
    ChunkDrops,
    CheckpointPending,
}

/// Slot of a counter.
pub open spec fn counter_index(c: Counter) -> int {
    match c {
        Counter::TurnStarts => 0,
        Counter::FirstTokens => 1,
        Counter::StreamChunks => 2,
        Counter::ChunkDrops => 3,
        Counter::CheckpointPending => 4,
    }
}

impl Counter {
    /// Slot of this counter.
    pub fn index(self) -> (r: usize)
        ensures
            r as int == counter_index(self),
            r < COUNTER_COUNT,
    {
        match self {
            Counter::TurnStarts => 0,
            Counter::FirstTokens => 1,
            Counter::StreamChunks => 2,
            Counter::ChunkDrops => 3,
            Counter::CheckpointPending => 4,
        }
    }
}

/// Samples of one phase: how many, their wrapping total, and the histogram.
pub struct PhaseMetric {
    count: u64,
    total_ms: u64,
    buckets: Vec<u64>,
}

impl PhaseMetric {
    /// Number of samples (modulo 2^64).
    pub closed spec fn count_v(&self) -> u64 {
        self.count
    }

    /// Sum of the samples in milliseconds (modulo 2^64).
    pub closed spec fn total_v(&self) -> u64 {
        self.total_ms
    }

    /// Samples per bucket.
    pub closed spec fn buckets_v(&self) -> Seq<u64> {
        self.buckets@
    }

    /// The histogram has one slot per bucket.
    pub open spec fn wf(&self) -> bool {
        self.buckets_v().len() == BUCKET_COUNT
    }

    /// No samples.
    pub fn new() -> (r: PhaseMetric)
        ensures
            r.wf(),
            r.count_v() == 0,
            r.total_v() == 0,
            forall|i: int| 0 <= i < BUCKET_COUNT ==> r.buckets_v()[i] == 0,
    {
        let mut buckets: Vec<u64> = Vec::new();
        let mut i: usize = 0;
        while i < BUCKET_COUNT
            invariant
                i <= BUCKET_COUNT,
                buckets@.len() == i,
                forall|k: int| 0 <= k < i ==> buckets@[k] == 0,
            decreases BUCKET_COUNT - i,
        {
            buckets.push(0);
            i += 1;
        }
        PhaseMetric { count: 0, total_ms: 0, buckets }
    }

    /// Count one sample of `duration_ms`.
    pub fn record(&mut self, duration_ms: u64)
        requires
            old(self).wf(),
        ensures
            final(self).wf(),
            final(self).count_v() == wrap_add(old(self).count_v(), 1),
            final(self).total_v() == wrap_add(old(self).total_v(), duration_ms),
            final(self).buckets_v() == old(self).buckets_v().update(
                bucket_of(duration_ms),
                wrap_add(old(self).buckets_v()[bucket_of(duration_ms)], 1),
            ),
    {
        self.count = self.count.wrapping_add(1);
        self.total_ms = self.total_ms.wrapping_add(duration_ms);
        let b = bucket_index(duration_ms);
        let v = self.buckets[b].wrapping_add(1);
        self.buckets.set(b, v);
    }

    /// Count, total and the p50 / p95 read of this phase.
    pub fn snapshot(&self) -> (r: PhaseSnapshot)
        requires
            self.wf(),
        ensures
            r == phase_snapshot_spec(*self),
    {
        PhaseSnapshot {
            count: self.count,
            total_ms: self.total_ms,
            p50_ms: percentile(self.buckets.as_slice(), self.count, 50),
            p95_ms: percentile(self.buckets.as_slice(), self.count, 95),
        }
    }
}

/// Read-out of one phase.
#[derive(Debug, Clone, Copy, PartialEq, Eq, Structural)]
pub struct PhaseSnapshot {
    pub count: u64,
    pub total_ms: u64,
    pub p50_ms: u64,
    pub p95_ms: u64,
}

/// What a phase reads out as.
pub open spec fn phase_snapshot_spec(m: PhaseMetric) -> PhaseSnapshot {
    PhaseSnapshot {
        count: m.count_v(),
        total_ms: m.total_v(),
        p50_ms: percentile_spec(m.buckets_v(), m.count_v(), 50),
        p95_ms: percentile_spec(m.buckets_v(), m.count_v(), 95),
    }
}

/// Read-out of the counters.
#[derive(Debug, Clone, Copy, PartialEq, Eq, Structural)]
pub struct CounterSnapshot {
    pub turn_starts: u64,
    pub first_tokens: u64,
    pub stream_chunks: u64,
    pub chunk_drops: u64,
    pub checkpoint_pending: u64,
}

/// Metrics of one engine: a fixed set of phases and counters, so recording
/// never grows memory.
pub struct ReActMetrics {
    phases: Vec<PhaseMetric>,
    counters: Vec<u64>,
}

impl ReActMetrics {
    /// Samples of `p`.
    pub closed spec fn phase_v(&self, p: Phase) -> PhaseMetric {
        self.phases@[phase_index(p)]
    }

    /// Value of `c`.
    pub closed spec fn counter_v(&self, c: Counter) -> u64 {
        self.counters@[counter_index(c)]
    }

    /// One metric per phase, each well formed, and one slot per counter.
    pub closed spec fn wf(&self) -> bool {
        &&& self.phases@.len() == PHASE_COUNT
        &&& self.counters@.len() == COUNTER_COUNT
        &&& forall|i: int| 0 <= i < PHASE_COUNT ==> (#[trigger] self.phases@[i]).wf()
    }

    /// Every phase and counter reads zero.
    pub open spec fn is_zero(&self) -> bool {
        &&& forall|p: Phase| #[trigger] self.phase_v(p).count_v() == 0 && self.phase_v(p).total_v() == 0
        &&& forall|p: Phase, i: int| 0 <= i < BUCKET_COUNT ==> #[trigger] self.phase_v(p).buckets_v()[i] == 0
        &&& forall|c: Counter| #[trigger] self.counter_v(c) == 0
    }

    /// Every phase and counter at zero.
    pub fn new() -> (r: ReActMetrics)
        ensures
            r.wf(),
            r.is_zero(),
            forall|p: Phase| #[trigger] r.phase_v(p).count_v() == 0 && r.phase_v(p).total_v() == 0,
            forall|p: Phase, i: int| 0 <= i < BUCKET_COUNT ==> #[trigger] r.phase_v(p).buckets_v()[i] == 0,
            forall|c: Counter| #[trigger] r.counter_v(c) == 0,
    {
        let mut phases: Vec<PhaseMetric> = Vec::new();
        let mut i: usize = 0;
        while i < PHASE_COUNT
            invariant
                i <= PHASE_COUNT,
                phases@.len() == i,
                forall|k: int| 0 <= k < i ==> (#[trigger] phases@[k]).wf() && phases@[k].count_v() == 0
                    && phases@[k].total_v() == 0,
                forall|k: int, j: int| 0 <= k < i && 0 <= j < BUCKET_COUNT ==> #[trigger] phases@[k].buckets_v()[j] == 0,
            decreases PHASE_COUNT - i,
        {
            phases.push(PhaseMetric::new());
            i += 1;
        }
        let mut counters: Vec<u64> = Vec::new();
        let mut j: usize = 0;
        while j < COUNTER_COUNT
            invariant
                j <= COUNTER_COUNT,
                counters@.len() == j,
                forall|k: int| 0 <= k < j ==> counters@[k] == 0,
            decreases COUNTER_COUNT - j,
        {
            counters.push(0);
            j += 1;
        }
        let r = ReActMetrics { phases, counters };
        proof {
            assert forall|p: Phase| #[trigger] r.phase_v(p).count_v() == 0 && r.phase_v(p).total_v() == 0 by {
                assert(0 <= phase_index(p) < PHASE_COUNT);
            }
            assert forall|p: Phase, k: int| 0 <= k < BUCKET_COUNT implies #[trigger] r.phase_v(p).buckets_v()[k] == 0 by {
                assert(0 <= phase_index(p) < PHASE_COUNT);
            }
            assert forall|c: Counter| #[trigger] r.counter_v(c) == 0 by {
                assert(0 <= counter_index(c) < COUNTER_COUNT);
            }
        }
        r
    }

    /// Count one event of `c`.
    pub fn increment(&mut self, c: Counter)
        requires
            old(self).wf(),
        ensures
            final(self).wf(),
            final(self).counter_v(c) == wrap_add(old(self).counter_v(c), 1),
            forall|d: Counter| d != c ==> #[trigger] final(self).counter_v(d) == old(self).counter_v(d),
            forall|p: Phase| #[trigger] final(self).phase_v(p) == old(self).phase_v(p),
    {
        let i = c.index();
        let v = self.counters[i].wrapping_add(1);
        self.counters.set(i, v);
        proof {
            assert forall|d: Counter| d != c implies #[trigger] self.counter_v(d) == old(self).counter_v(d) by {
                assert(counter_index(d) != counter_index(c));
            }
        }
    }

    /// Take back one event of `c` (a gauge going down).
    pub fn decrement(&mut self, c: Counter)
        requires
            old(self).wf(),
        ensures
            final(self).wf(),
            final(self).counter_v(c) == wrap_sub(old(self).counter_v(c), 1),
            forall|d: Counter| d != c ==> #[trigger] final(self).counter_v(d) == old(self).counter_v(d),
            forall|p: Phase| #[trigger] final(self).phase_v(p) == old(self).phase_v(p),
    {
        let i = c.index();
        let v = self.counters[i].wrapping_sub(1);
        self.counters.set(i, v);
        proof {
            assert forall|d: Counter| d != c implies #[trigger] self.counter_v(d) == old(self).counter_v(d) by {
                assert(counter_index(d) != counter_index(c));
            }
        }
    }

    /// Record one latency sample of `phase`.
    pub fn observe(&mut self, phase: Phase, duration_ms: u64)
        requires
            old(self).wf(),
        ensures
            final(self).wf(),
            final(self).phase_v(phase).count_v() == wrap_add(old(self).phase_v(phase).count_v(), 1),
            final(self).phase_v(phase).total_v() == wrap_add(old(self).phase_v(phase).total_v(), duration_ms),
            final(self).phase_v(phase).buckets_v() == old(self).phase_v(phase).buckets_v().update(
                bucket_of(duration_ms),
                wrap_add(old(self).phase_v(phase).buckets_v()[bucket_of(duration_ms)], 1),
            ),
            forall|q: Phase| q != phase ==> #[trigger] final(self).phase_v(q) == old(self).phase_v(q),
            forall|c: Counter| #[trigger] final(self).counter_v(c) == old(self).counter_v(c),
    {
        let i = phase.index();
        let mut m = self.phases.remove(i);
        assert(m.wf()) by {
            assert(old(self).phases@[i as int].wf());
        }
        m.record(duration_ms);
        self.phases.insert(i, m);
        proof {
            assert forall|k: int| 0 <= k < PHASE_COUNT implies (#[trigger] self.phases@[k]).wf() by {
                if k != i {
                    assert(self.phases@[k] == old(self).phases@[k]);
                    assert(old(self).phases@[k].wf());
                }
            }
            assert forall|q: Phase| q != phase implies #[trigger] self.phase_v(q) == old(self).phase_v(q) by {
                assert(phase_index(q) != phase_index(phase));
                assert(0 <= phase_index(q) < PHASE_COUNT);
            }
        }
    }

    /// Begin timing `phase` for a step of a run; `started_ms` is read from a
    /// monotonic clock.
    pub fn start(&self, phase: Phase, session_id: &str, run_id: u64, step_number: u32, started_ms: u64) -> (r: PhaseTimer)
        ensures
            r.phase == phase,
            r.session_id@ == session_id@,
            r.run_id == run_id,
            r.step_number == step_number,
            r.started_ms == started_ms,
    {
        PhaseTimer { phase, session_id: String::from_str(session_id), run_id, step_number, started_ms }
    }

    /// Every phase read out, and every counter.
    pub fn snapshot(&self) -> (r: MetricsSnapshot)
        requires
            self.wf(),
        ensures
            r.wf(),
            forall|p: Phase| #[trigger] r.phase_spec(p) == phase_snapshot_spec(self.phase_v(p)),
            r.counters.turn_starts == self.counter_v(Counter::TurnStarts),
            r.counters.first_tokens == self.counter_v(Counter::FirstTokens),
            r.counters.stream_chunks == self.counter_v(Counter::StreamChunks),
            r.counters.chunk_drops == self.counter_v(Counter::ChunkDrops),
            r.counters.checkpoint_pending == self.counter_v(Counter::CheckpointPending),
    {
        let mut phases: Vec<PhaseSnapshot> = Vec::new();
        let mut i: usize = 0;
        while i < PHASE_COUNT
            invariant
                i <= PHASE_COUNT,
                self.wf(),
                phases@.len() == i,
                forall|k: int| 0 <= k < i ==> #[trigger] phases@[k] == phase_snapshot_spec(self.phases@[k]),
            decreases PHASE_COUNT - i,
        {
            assert(self.phases@[i as int].wf());
            phases.push(self.phases[i].snapshot());
            i += 1;
        }
        let counters = CounterSnapshot {
            turn_starts: self.counters[0],
            first_tokens: self.counters[1],
            stream_chunks: self.counters[2],
            chunk_drops: self.counters[3],
            checkpoint_pending: self.counters[4],
        };
        let r = MetricsSnapshot { phases, counters };
        proof {
            assert forall|p: Phase| #[trigger] r.phase_spec(p) == phase_snapshot_spec(self.phase_v(p)) by {
                assert(0 <= phase_index(p) < PHASE_COUNT);
            }
        }
        r
    }
}

/// Read-out of every phase and counter.
pub struct MetricsSnapshot {
    pub phases: Vec<PhaseSnapshot>,
    pub counters: CounterSnapshot,
}

impl MetricsSnapshot {
    /// Read-out of `p`.
    pub open spec fn phase_spec(&self, p: Phase) -> PhaseSnapshot {
        self.phases@[phase_index(p)]
    }

    /// One read-out per phase.
    pub open spec fn wf(&self) -> bool {
        self.phases@.len() == PHASE_COUNT
    }

    /// Read-out of `p`.
    pub fn phase(&self, p: Phase) -> (r: PhaseSnapshot)
        requires
            self.wf(),
        ensures
            r == self.phase_spec(p),
    {
        self.phases[p.index()]
    }
}

/// A running latency sample with its correlation (session, run, step); it
/// records into the phase when finished, on whatever path the phase ends.
pub struct PhaseTimer {
    pub phase: Phase,
    pub session_id: String,
    pub run_id: u64,
    pub step_number: u32,
    pub started_ms: u64,
}

/// Milliseconds between two readings of a monotonic clock (0 if `now` is
/// earlier).
pub open spec fn elapsed_ms(started_ms: u64, now_ms: u64) -> u64 {
    if now_ms >= started_ms {
        (now_ms - started_ms) as u64
    } else {
        0
    }
}

impl PhaseTimer {
    /// End the sample at `now_ms` and record it; returns the elapsed time.
    pub fn finish(self, metrics: &mut ReActMetrics, now_ms: u64) -> (r: u64)
        requires
            old(metrics).wf(),
        ensures
            r == elapsed_ms(self.started_ms, now_ms),
            final(metrics).wf(),
            final(metrics).phase_v(self.phase).count_v() == wrap_add(old(metrics).phase_v(self.phase).count_v(), 1),
            final(metrics).phase_v(self.phase).total_v() == wrap_add(old(metrics).phase_v(self.phase).total_v(), r),
            forall|q: Phase| q != self.phase ==> #[trigger] final(metrics).phase_v(q) == old(metrics).phase_v(q),
            forall|c: Counter| #[trigger] final(metrics).counter_v(c) == old(metrics).counter_v(c),
    {
        let elapsed = now_ms.saturating_sub(self.started_ms);
        metrics.observe(self.phase, elapsed);
        elapsed
    }
}

impl Default for PhaseMetric {
    fn default() -> (r: PhaseMetric)
        ensures
            r.wf(),
            r.count_v() == 0,
            r.total_v() == 0,
            forall|i: int| 0 <= i < BUCKET_COUNT ==> r.buckets_v()[i] == 0,
    {
        PhaseMetric::new()
    }
}

impl Default for ReActMetrics {
    fn default() -> (r: ReActMetrics)
        ensures
            r.wf(),
            r.is_zero(),
    {
        ReActMetrics::new()
    }
}

} // verus!
