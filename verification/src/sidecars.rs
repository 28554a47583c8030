//! Per-session sidecar state of the engine: usage counters and their persist
//! epochs, the tool-definition cache, the newest-message timestamp cache, the
//! context-window cache and the cross-session inbox poll cadence.

use vstd::prelude::*;
use crate::json::Json;
use crate::keyed::SessionMap;

verus! {

/// Cumulative token counters of one session.
#[derive(Debug, Clone, Copy, PartialEq, Eq, Structural)]
pub struct CumulativeUsage {
    pub prompt_tokens: u32,
    pub completion_tokens: u32,
    pub total_tokens: u32,
    pub cached_tokens: u32,
    pub cache_creation_tokens: u32,
    pub cache_miss_tokens: u32,
    /// Some call of the session reported a cost.
    pub has_cost: bool,
}

/// Token counts of one call.
#[derive(Debug, Clone, Copy, PartialEq, Eq, Structural)]
pub struct CallUsage {
    pub prompt_tokens: u32,
    pub completion_tokens: u32,
    pub total_tokens: u32,
    pub cached_tokens: u32,
    pub cache_creation_tokens: u32,
    pub cache_miss_tokens: u32,
    pub has_cost: bool,
}

impl CallUsage {
    /// The provider reported some usage for the call; a call with no
    /// prompt, completion or total tokens is neither recorded nor shown.
    pub fn is_reported(&self) -> (r: bool)
        ensures
            r == (self.prompt_tokens != 0 || self.completion_tokens != 0 || self.total_tokens != 0),
    {
        self.prompt_tokens != 0 || self.completion_tokens != 0 || self.total_tokens != 0
    }
}

/// `a + b` capped at `u32::MAX`.
pub open spec fn sat_add_u32(a: u32, b: u32) -> u32 {
    if a + b > u32::MAX {
        u32::MAX
    } else {
        (a + b) as u32
    }
}

/// Counters after adding one call (saturating).
pub open spec fn accumulate(u: CumulativeUsage, c: CallUsage) -> CumulativeUsage {
    CumulativeUsage {
        prompt_tokens: sat_add_u32(u.prompt_tokens, c.prompt_tokens),
        completion_tokens: sat_add_u32(u.completion_tokens, c.completion_tokens),
        total_tokens: sat_add_u32(u.total_tokens, c.total_tokens),
        cached_tokens: sat_add_u32(u.cached_tokens, c.cached_tokens),
        cache_creation_tokens: sat_add_u32(u.cache_creation_tokens, c.cache_creation_tokens),
        cache_miss_tokens: sat_add_u32(u.cache_miss_tokens, c.cache_miss_tokens),
        has_cost: u.has_cost || c.has_cost,
    }
}

/// Per-session cumulative token usage plus a persist epoch per session.
/// The epoch is bumped on rollback/truncate so a write captured before the
/// truncate can recognise that it is stale.
pub struct UsageTracker {
    totals: SessionMap<CumulativeUsage>,
    epochs: SessionMap<u64>,
}

impl UsageTracker {
    pub closed spec fn totals_map(&self) -> Map<Seq<char>, CumulativeUsage> {
        self.totals@
    }

    pub closed spec fn epochs_map(&self) -> Map<Seq<char>, u64> {
        self.epochs@
    }

    pub closed spec fn wf(&self) -> bool {
        &&& self.totals.wf()
        &&& self.totals.capacity_spec() == usize::MAX
        &&& self.epochs.wf()
        &&& self.epochs.capacity_spec() == usize::MAX
    }

    /// The epoch of a session (0 when never invalidated).
    pub open spec fn epoch_of(&self, session: Seq<char>) -> u64 {
        if self.epochs_map().contains_key(session) {
            self.epochs_map()[session]
        } else {
            0
        }
    }

    /// A tracker with no sessions.
    pub fn new() -> (r: UsageTracker)
        ensures
            r.wf(),
            r.totals_map() == Map::<Seq<char>, CumulativeUsage>::empty(),
            r.epochs_map() == Map::<Seq<char>, u64>::empty(),
    {
        UsageTracker { totals: SessionMap::new(), epochs: SessionMap::new() }
    }

    /// Current persist epoch of a session.
    pub fn epoch(&self, session_id: &str) -> (r: u64)
        requires
            self.wf(),
        ensures
            r == self.epoch_of(session_id@),
    {
        match self.epochs.get(session_id) {
            Some(e) => *e,
            None => 0,
        }
    }

    /// A usage write captured at epoch `captured` may still land: no
    /// rollback or truncate invalidated the session since.
    pub fn write_is_current(&self, session_id: &str, captured: u64) -> (r: bool)
        requires
            self.wf(),
        ensures
            r == (self.epoch_of(session_id@) == captured),
    {
        self.epoch(session_id) == captured
    }

    /// The running totals of a session are present (no seed needed).
    pub fn is_seeded(&self, session_id: &str) -> (r: bool)
        requires
            self.wf(),
        ensures
            r == self.totals_map().contains_key(session_id@),
    {
        self.totals.contains_key(session_id)
    }

    /// Add one call's tokens to the session's totals, first seeding them from
    /// `seed` when the session has none in memory; returns the new totals.
    pub fn record_with_seed(&mut self, session_id: &str, call: CallUsage, seed: CumulativeUsage) -> (r: CumulativeUsage)
        requires
            old(self).wf(),
        ensures
            final(self).wf(),
            r == accumulate(
                if old(self).totals_map().contains_key(session_id@) {
                    old(self).totals_map()[session_id@]
                } else {
                    seed
                },
                call,
            ),
            final(self).totals_map() == old(self).totals_map().insert(session_id@, r),
            final(self).epochs_map() == old(self).epochs_map(),
    {
        let base = match self.totals.get(session_id) {
            Some(u) => *u,
            None => seed,
        };
        let next = CumulativeUsage {
            prompt_tokens: base.prompt_tokens.saturating_add(call.prompt_tokens),
            completion_tokens: base.completion_tokens.saturating_add(call.completion_tokens),
            total_tokens: base.total_tokens.saturating_add(call.total_tokens),
            cached_tokens: base.cached_tokens.saturating_add(call.cached_tokens),
            cache_creation_tokens: base.cache_creation_tokens.saturating_add(
                call.cache_creation_tokens,
            ),
            cache_miss_tokens: base.cache_miss_tokens.saturating_add(call.cache_miss_tokens),
            has_cost: base.has_cost || call.has_cost,
        };
        self.totals.insert(session_id.to_owned(), next);
        next
    }

    /// Drop the in-memory totals of a session.
    pub fn reset(&mut self, session_id: &str)
        requires
            old(self).wf(),
        ensures
            final(self).wf(),
            final(self).totals_map() == old(self).totals_map().remove(session_id@),
            final(self).epochs_map() == old(self).epochs_map(),
    {
        self.totals.remove(session_id);
    }

    /// Clear the in-memory totals and bump the persist epoch (saturating) so
    /// writes captured before a truncate are ignored.
    pub fn invalidate_after_truncate(&mut self, session_id: &str)
        requires
            old(self).wf(),
        ensures
            final(self).wf(),
            final(self).totals_map() == old(self).totals_map().remove(session_id@),
            final(self).epochs_map() == old(self).epochs_map().insert(
                session_id@,
                if old(self).epoch_of(session_id@) < u64::MAX {
                    (old(self).epoch_of(session_id@) + 1) as u64
                } else {
                    u64::MAX
                },
            ),
    {
        self.totals.remove(session_id);
        let next = self.epoch(session_id).saturating_add(1);
        self.epochs.insert(session_id.to_owned(), next);
    }
}

/// A write captured at `captured` is still current.
pub open spec fn persist_current(t: UsageTracker, session: Seq<char>, captured: u64) -> bool {
    t.epoch_of(session) == captured
}

/// Law: after an invalidation, no write captured before it is current any
/// more (as long as the epoch counter has not saturated).
pub proof fn invalidation_discards_stale_writes(
    before: UsageTracker,
    after: UsageTracker,
    session: Seq<char>,
)
    requires
        before.epoch_of(session) < u64::MAX,
        after.epochs_map() == before.epochs_map().insert(
            session,
            (before.epoch_of(session) + 1) as u64,
        ),
    ensures
        !persist_current(after, session, before.epoch_of(session)),
{
}

/// One tool definition as offered to the provider.
pub struct ToolDefinition {
    pub name: String,
    pub description: String,
    pub parameters: Json,
}

/// Bound on sessions whose tool definitions are cached.
pub const TOOL_DEF_CACHE_CAPACITY: usize = 128;

/// Per-session tool-definition cache keyed by the catalog version, bounded
/// with least-recently-used eviction.
pub struct ToolDefCache {
    cache: SessionMap<((u64, u64), std::sync::Arc<Vec<ToolDefinition>>)>,
}

impl ToolDefCache {
    pub closed spec fn entries(&self) -> Map<Seq<char>, ((u64, u64), std::sync::Arc<Vec<ToolDefinition>>)> {
        self.cache@
    }

    /// Sessions in recency order.
    pub closed spec fn order(&self) -> Seq<Seq<char>> {
        self.cache.order()
    }

    pub closed spec fn size(&self) -> nat {
        self.cache.len_spec()
    }

    pub closed spec fn wf(&self) -> bool {
        self.cache.wf() && self.cache.capacity_spec() == TOOL_DEF_CACHE_CAPACITY
    }

    /// An empty cache.
    pub fn new() -> (r: ToolDefCache)
        ensures
            r.wf(),
            r.entries() == Map::<Seq<char>, ((u64, u64), std::sync::Arc<Vec<ToolDefinition>>)>::empty(),
    {
        ToolDefCache { cache: SessionMap::with_capacity(TOOL_DEF_CACHE_CAPACITY) }
    }

    /// Number of cached sessions.
    pub fn len(&self) -> (r: usize)
        ensures
            r == self.size(),
    {
        self.cache.len()
    }

    /// The cached definitions when they were built for `version`; a hit makes
    /// the session the most recently used one.
    pub fn get_if_version(&mut self, session_id: &str, version: (u64, u64)) -> (r: Option<std::sync::Arc<Vec<ToolDefinition>>>)
        requires
            old(self).wf(),
        ensures
            final(self).wf(),
            final(self).entries() == old(self).entries(),
            final(self).size() == old(self).size(),
            match r {
                Some(defs) => old(self).entries().contains_key(session_id@) && old(self).entries()[session_id@].0 == version
                    && old(self).entries()[session_id@].1 == defs && final(self).order().last() == session_id@,
                None => !old(self).entries().contains_key(session_id@) || old(self).entries()[session_id@].0 != version,
            },
    {
        let hit = match self.cache.get(session_id) {
            Some(entry) => if entry.0.0 == version.0 && entry.0.1 == version.1 {
                Some(std::sync::Arc::clone(&entry.1))
            } else {
                None
            },
            None => None,
        };
        if hit.is_some() {
            self.cache.touch(session_id);
        }
        hit
    }

    /// Cache `defs` for a session built at `version`, evicting the least
    /// recently used session when the cache is full.
    pub fn insert(&mut self, session_id: &str, version: (u64, u64), defs: std::sync::Arc<Vec<ToolDefinition>>)
        requires
            old(self).wf(),
        ensures
            final(self).wf(),
            final(self).size() <= TOOL_DEF_CACHE_CAPACITY,
            final(self).entries().contains_key(session_id@),
            final(self).entries()[session_id@] == (version, defs),
            final(self).order().last() == session_id@,
            !old(self).entries().contains_key(session_id@) && old(self).size() >= TOOL_DEF_CACHE_CAPACITY
                ==> final(self).entries() == old(self).entries().remove(old(self).order()[0]).insert(session_id@, (version, defs)),
            old(self).entries().contains_key(session_id@) || old(self).size() < TOOL_DEF_CACHE_CAPACITY
                ==> final(self).entries() == old(self).entries().insert(session_id@, (version, defs)),
    {
        self.cache.insert_lru(session_id.to_owned(), (version, defs));
    }

    /// Forget a session.
    pub fn remove(&mut self, session_id: &str)
        requires
            old(self).wf(),
        ensures
            final(self).wf(),
            final(self).entries() == old(self).entries().remove(session_id@),
    {
        self.cache.remove(session_id);
    }
}

/// Cached creation time of the newest message per session.
pub struct LastMsgAtCache {
    map: SessionMap<Option<String>>,
}

impl LastMsgAtCache {
    pub closed spec fn entries(&self) -> Map<Seq<char>, Option<String>> {
        self.map@
    }

    pub closed spec fn wf(&self) -> bool {
        self.map.wf() && self.map.capacity_spec() == usize::MAX
    }

    /// An empty cache.
    pub fn new() -> (r: LastMsgAtCache)
        ensures
            r.wf(),
            r.entries() == Map::<Seq<char>, Option<String>>::empty(),
    {
        LastMsgAtCache { map: SessionMap::new() }
    }

    /// The cached value: `None` when nothing is cached, `Some(None)` when the
    /// session is known to have no message.
    pub fn get(&self, session_id: &str) -> (r: Option<Option<String>>)
        requires
            self.wf(),
        ensures
            match r {
                Some(v) => self.entries().contains_key(session_id@) && v == self.entries()[session_id@],
                None => !self.entries().contains_key(session_id@),
            },
    {
        match self.map.get(session_id) {
            Some(v) => Some(v.clone()),
            None => None,
        }
    }

    /// Cache the newest message time of a session.
    pub fn set(&mut self, session_id: &str, last_msg_at: Option<String>)
        requires
            old(self).wf(),
        ensures
            final(self).wf(),
            final(self).entries() == old(self).entries().insert(session_id@, last_msg_at),
    {
        self.map.insert(session_id.to_owned(), last_msg_at);
    }

    /// Forget a session.
    pub fn remove(&mut self, session_id: &str)
        requires
            old(self).wf(),
        ensures
            final(self).wf(),
            final(self).entries() == old(self).entries().remove(session_id@),
    {
        self.map.remove(session_id);
    }
}

/// Endpoint role a request is routed to.
#[derive(Debug, Clone, Copy, PartialEq, Eq, Structural)]
pub enum EndpointRole {
    DefaultModel,
    ImageModel,
    AudioModel,
    BalancedModel,
    SummaryModel,
}

/// Context window per role, valid for one router instance.
pub struct ContextWindowCache {
    router: usize,
    windows: Vec<(EndpointRole, u32)>,
}

/// The window cached for a role.
pub open spec fn window_of(ws: Seq<(EndpointRole, u32)>, role: EndpointRole) -> Option<u32>
    decreases ws.len(),
{
    if ws.len() == 0 {
        None
    } else if ws.last().0 == role {
        Some(ws.last().1)
    } else {
        window_of(ws.drop_last(), role)
    }
}

impl ContextWindowCache {
    pub closed spec fn router_spec(&self) -> usize {
        self.router
    }

    /// The cached window of a role, whatever router it belongs to.
    pub closed spec fn window(&self, role: EndpointRole) -> Option<u32> {
        window_of(self.windows@, role)
    }

    /// An empty cache bound to no router.
    pub fn new() -> (r: ContextWindowCache)
        ensures
            r.router_spec() == 0,
            forall|role: EndpointRole| r.window(role) is None,
    {
        ContextWindowCache { router: 0, windows: Vec::new() }
    }

    /// The cached window for `role`, only when the cache belongs to `router`.
    pub fn get(&self, router: usize, role: EndpointRole) -> (r: Option<u32>)
        ensures
            r == if self.router_spec() == router {
                self.window(role)
            } else {
                None::<u32>
            },
    {
        if self.router != router {
            return None;
        }
        let mut i = self.windows.len();
        proof {
            assert(self.windows@.take(i as int) == self.windows@);
        }
        while i > 0
            invariant
                i <= self.windows@.len(),
                self.router == router,
                window_of(self.windows@.take(i as int), role) == window_of(self.windows@, role),
            decreases i,
        {
            let ghost pre = self.windows@.take(i as int);
            i -= 1;
            proof {
                assert(pre.drop_last() == self.windows@.take(i as int));
                assert(pre.last() == self.windows@[i as int]);
            }
            if self.windows[i].0 == role {
                return Some(self.windows[i].1);
            }
        }
        None
    }

    /// Cache `window` for `role` under `router`; a different router first
    /// drops everything cached for the previous one.
    pub fn insert(&mut self, router: usize, role: EndpointRole, window: u32)
        ensures
            final(self).router_spec() == router,
            final(self).window(role) == Some(window),
            forall|other: EndpointRole| other != role ==> final(self).window(other) == if old(
                self,
            ).router_spec() == router {
                old(self).window(other)
            } else {
                None::<u32>
            },
    {
        if self.router != router {
            self.router = router;
            self.windows = Vec::new();
        }
        let ghost before = self.windows@;
        self.windows.push((role, window));
        proof {
            assert(self.windows@.drop_last() == before);
        }
    }

    /// Drop all cached windows (after a limits hot-reload).
    pub fn clear(&mut self)
        ensures
            final(self).router_spec() == 0,
            forall|role: EndpointRole| final(self).window(role) is None,
    {
        self.router = 0;
        self.windows = Vec::new();
    }
}

/// Fallback cadence (in steps) of the cross-session inbox check.
pub const MESSAGING_POLL_EVERY_STEPS: u32 = 3;

/// Per-session state of the cross-session inbox poller: title cache, steps
/// since the last poll and sessions with a heartbeat in flight.
pub struct MessagingState {
    title_cache: SessionMap<Option<String>>,
    steps_since_poll: SessionMap<u32>,
    heartbeat_inflight: SessionMap<()>,
}

impl MessagingState {
    pub closed spec fn titles(&self) -> Map<Seq<char>, Option<String>> {
        self.title_cache@
    }

    pub closed spec fn steps(&self) -> Map<Seq<char>, u32> {
        self.steps_since_poll@
    }

    pub closed spec fn inflight(&self) -> Set<Seq<char>> {
        self.heartbeat_inflight@.dom()
    }

    pub closed spec fn wf(&self) -> bool {
        &&& self.title_cache.wf()
        &&& self.title_cache.capacity_spec() == usize::MAX
        &&& self.steps_since_poll.wf()
        &&& self.steps_since_poll.capacity_spec() == usize::MAX
        &&& self.heartbeat_inflight.wf()
        &&& self.heartbeat_inflight.capacity_spec() == usize::MAX
    }

    /// Steps since the last poll of a session.
    pub open spec fn steps_of(&self, session: Seq<char>) -> u32 {
        if self.steps().contains_key(session) {
            self.steps()[session]
        } else {
            0
        }
    }

    /// Empty poller state.
    pub fn new() -> (r: MessagingState)
        ensures
            r.wf(),
            r.titles() == Map::<Seq<char>, Option<String>>::empty(),
            r.steps() == Map::<Seq<char>, u32>::empty(),
            r.inflight() == Set::<Seq<char>>::empty(),
    {
        let r = MessagingState {
            title_cache: SessionMap::new(),
            steps_since_poll: SessionMap::new(),
            heartbeat_inflight: SessionMap::new(),
        };
        proof {
            assert(r.inflight() =~= Set::<Seq<char>>::empty());
        }
        r
    }

    /// The cached title of a session (`None`: not cached).
    pub fn cached_title(&self, session_id: &str) -> (r: Option<Option<String>>)
        requires
            self.wf(),
        ensures
            match r {
                Some(t) => self.titles().contains_key(session_id@) && t == self.titles()[session_id@],
                None => !self.titles().contains_key(session_id@),
            },
    {
        match self.title_cache.get(session_id) {
            Some(t) => Some(t.clone()),
            None => None,
        }
    }

    /// Cache the title of a session.
    pub fn cache_title(&mut self, session_id: &str, title: Option<String>)
        requires
            old(self).wf(),
        ensures
            final(self).wf(),
            final(self).titles() == old(self).titles().insert(session_id@, title),
            final(self).steps() == old(self).steps(),
            final(self).inflight() == old(self).inflight(),
    {
        self.title_cache.insert(session_id.to_owned(), title);
    }

    /// Count one step and decide whether the inbox is polled now: on a
    /// delivery notification, or when the fallback cadence is due. A poll
    /// resets the session's step count.
    pub fn poll_due(&mut self, session_id: &str, notified: bool) -> (r: bool)
        requires
            old(self).wf(),
        ensures
            final(self).wf(),
            r == (notified || sat_add_u32(old(self).steps_of(session_id@), 1) >= MESSAGING_POLL_EVERY_STEPS),
            final(self).steps_of(session_id@) == if r {
                0
            } else {
                sat_add_u32(old(self).steps_of(session_id@), 1)
            },
            forall|other: Seq<char>| other != session_id@ ==> final(self).steps_of(other) == old(self).steps_of(other),
            final(self).titles() == old(self).titles(),
            final(self).inflight() == old(self).inflight(),
    {
        let current = match self.steps_since_poll.get(session_id) {
            Some(n) => *n,
            None => 0,
        };
        let counted = current.saturating_add(1);
        let due = notified || counted >= MESSAGING_POLL_EVERY_STEPS;
        let stored = if due { 0 } else { counted };
        self.steps_since_poll.insert(session_id.to_owned(), stored);
        due
    }

    /// Claim the heartbeat slot of a session; false when one is in flight.
    pub fn try_begin_heartbeat(&mut self, session_id: &str) -> (r: bool)
        requires
            old(self).wf(),
        ensures
            final(self).wf(),
            r == !old(self).inflight().contains(session_id@),
            final(self).inflight() == old(self).inflight().insert(session_id@),
            final(self).titles() == old(self).titles(),
            final(self).steps() == old(self).steps(),
    {
        if self.heartbeat_inflight.contains_key(session_id) {
            proof {
                assert(old(self).inflight().insert(session_id@) =~= old(self).inflight());
            }
            return false;
        }
        self.heartbeat_inflight.insert(session_id.to_owned(), ());
        proof {
            assert(self.inflight() =~= old(self).inflight().insert(session_id@));
        }
        true
    }

    /// Release the heartbeat slot of a session.
    pub fn end_heartbeat(&mut self, session_id: &str)
        requires
            old(self).wf(),
        ensures
            final(self).wf(),
            final(self).inflight() == old(self).inflight().remove(session_id@),
            final(self).titles() == old(self).titles(),
            final(self).steps() == old(self).steps(),
    {
        self.heartbeat_inflight.remove(session_id);
        proof {
            assert(self.inflight() =~= old(self).inflight().remove(session_id@));
        }
    }

    /// Drop every per-session entry of a finished session.
    pub fn clear_session(&mut self, session_id: &str)
        requires
            old(self).wf(),
        ensures
            final(self).wf(),
            final(self).titles() == old(self).titles().remove(session_id@),
            final(self).steps() == old(self).steps().remove(session_id@),
            final(self).inflight() == old(self).inflight().remove(session_id@),
    {
        self.title_cache.remove(session_id);
        self.steps_since_poll.remove(session_id);
        self.heartbeat_inflight.remove(session_id);
        proof {
            assert(self.inflight() =~= old(self).inflight().remove(session_id@));
        }
    }
}

impl Default for UsageTracker {
    fn default() -> (r: UsageTracker)
        ensures
            r.wf(),
            r.totals_map() == Map::<Seq<char>, CumulativeUsage>::empty(),
            r.epochs_map() == Map::<Seq<char>, u64>::empty(),
    {
        UsageTracker::new()
    }
}

impl Default for ToolDefCache {
    fn default() -> (r: ToolDefCache)
        ensures
            r.wf(),
            r.entries() == Map::<Seq<char>, ((u64, u64), std::sync::Arc<Vec<ToolDefinition>>)>::empty(),
    {
        ToolDefCache::new()
    }
}

impl Default for LastMsgAtCache {
    fn default() -> (r: LastMsgAtCache)
        ensures
            r.wf(),
            r.entries() == Map::<Seq<char>, Option<String>>::empty(),
    {
        LastMsgAtCache::new()
    }
}

impl Default for ContextWindowCache {
    fn default() -> (r: ContextWindowCache)
        ensures
            r.router_spec() == 0,
            forall|role: EndpointRole| r.window(role) is None,
    {
        ContextWindowCache::new()
    }
}

impl Default for MessagingState {
    fn default() -> (r: MessagingState)
        ensures
            r.wf(),
            r.titles() == Map::<Seq<char>, Option<String>>::empty(),
            r.steps() == Map::<Seq<char>, u32>::empty(),
            r.inflight() == Set::<Seq<char>>::empty(),
    {
        MessagingState::new()
    }
}

} // verus!
