//! Snapshot write throttling and recovery bookkeeping.

use vstd::prelude::*;
use crate::keyed::SessionMap;
use crate::text::{chars_of, string_of, trim_chars, trim_seq};

verus! {

/// Outcome of the recovery-only persistence repair after a failed provider
/// turn. The scratch partial may be discarded only when every durable
/// representation needed to continue has been committed.
#[derive(Debug, Clone, Copy, PartialEq, Eq, Structural)]
pub enum RecoveryPersistenceResult {
    Persisted,
    Failed {
        branch_point: bool,
        partial_messages: bool,
        recovery_snapshot: bool,
        projection: bool,
        /// The terminal `failed` marker itself was committed.
        failure_marker: bool,
    },
}

impl RecoveryPersistenceResult {
    /// The scratch partial is safe to discard.
    pub fn should_discard(&self) -> (r: bool)
        ensures
            r == (*self is Persisted),
    {
        match self {
            RecoveryPersistenceResult::Persisted => true,
            _ => false,
        }
    }
}

/// Mid-run snapshot write throttle: the last step at which each session
/// wrote a snapshot.
pub struct SnapshotStore {
    last_written: SessionMap<u32>,
}

/// Steps between mid-run snapshot writes on the happy path.
pub const WRITE_INTERVAL: u32 = 3;

/// A write is due at `step`: forced, never written, or at least
/// `WRITE_INTERVAL` steps after the last write.
pub open spec fn write_due(last: Map<Seq<char>, u32>, session: Seq<char>, step: u32, force: bool) -> bool {
    force || !last.contains_key(session) || (if step >= last[session] {
        step - last[session]
    } else {
        0
    }) >= WRITE_INTERVAL
}

impl SnapshotStore {
    /// Last written step per session.
    pub closed spec fn written(&self) -> Map<Seq<char>, u32> {
        self.last_written@
    }

    pub closed spec fn wf(&self) -> bool {
        self.last_written.wf() && self.last_written.capacity_spec() == usize::MAX
    }

    /// A store that has written nothing.
    pub fn new() -> (r: SnapshotStore)
        ensures
            r.wf(),
            r.written() == Map::<Seq<char>, u32>::empty(),
    {
        SnapshotStore { last_written: SessionMap::new() }
    }

    /// Whether a snapshot write should happen at `step`.
    pub fn should_write(&self, session_id: &str, step: u32, force: bool) -> (r: bool)
        requires
            self.wf(),
        ensures
            r == write_due(self.written(), session_id@, step, force),
    {
        if force {
            return true;
        }
        match self.last_written.get(session_id) {
            None => true,
            Some(last) => step.saturating_sub(*last) >= WRITE_INTERVAL,
        }
    }

    /// Record that a snapshot was written at `step`.
    pub fn record_write(&mut self, session_id: &str, step: u32)
        requires
            old(self).wf(),
        ensures
            final(self).wf(),
            final(self).written() == old(self).written().insert(session_id@, step),
    {
        let key = session_id.to_owned();
        self.last_written.remove(session_id);
        self.last_written.insert(key, step);
        proof {
            assert(old(self).written().remove(session_id@).insert(session_id@, step) =~= old(
                self,
            ).written().insert(session_id@, step));
        }
    }

    /// Step-boundary hook: whether a write is due and, if so, record it.
    pub fn on_step_boundary(&mut self, session_id: &str, step: u32, force: bool) -> (r: bool)
        requires
            old(self).wf(),
        ensures
            final(self).wf(),
            r == write_due(old(self).written(), session_id@, step, force),
            r ==> final(self).written() == old(self).written().insert(session_id@, step),
            !r ==> final(self).written() == old(self).written(),
    {
        let due = self.should_write(session_id, step, force);
        if due {
            self.record_write(session_id, step);
        }
        due
    }

    /// Drop throttle state for a finished session.
    pub fn clear_session(&mut self, session_id: &str)
        requires
            old(self).wf(),
        ensures
            final(self).wf(),
            final(self).written() == old(self).written().remove(session_id@),
    {
        self.last_written.remove(session_id);
    }

    /// Last written step for a session.
    pub fn last_written(&self, session_id: &str) -> (r: Option<u32>)
        requires
            self.wf(),
        ensures
            r == if self.written().contains_key(session_id@) {
                Some(self.written()[session_id@])
            } else {
                None::<u32>
            },
    {
        match self.last_written.get(session_id) {
            Some(v) => Some(*v),
            None => None,
        }
    }
}

/// Law: a step-boundary write is followed by no other unforced write of that
/// session for the next `WRITE_INTERVAL - 1` steps, and sessions are
/// throttled independently.
pub proof fn snapshot_throttle_law(
    before: Map<Seq<char>, u32>,
    session: Seq<char>,
    other: Seq<char>,
    step: u32,
    later: u32,
)
    requires
        step <= later < step + WRITE_INTERVAL,
    ensures
        !write_due(before.insert(session, step), session, later, false),
        write_due(before.insert(session, step), session, (step + WRITE_INTERVAL) as u32, false)
            || step + WRITE_INTERVAL > u32::MAX,
        other != session ==> write_due(before.insert(session, step), other, later, false)
            == write_due(before, other, later, false),
{
}

impl Default for SnapshotStore {
    fn default() -> (r: SnapshotStore)
        ensures
            r.wf(),
            r.written() == Map::<Seq<char>, u32>::empty(),
    {
        SnapshotStore::new()
    }
}

/// Which durable phases of the recovery repair committed.
#[derive(Debug, Clone, Copy, PartialEq, Eq, Structural)]
pub struct RecoveryPhases {
    /// The forced branch-point snapshot before the partial output.
    pub branch_point: bool,
    /// The recovered reasoning / thought messages.
    pub partial_messages: bool,
    /// The projected thought step.
    pub projection: bool,
    /// The snapshot that marks the failed step replaceable.
    pub recovery_snapshot: bool,
}

/// Every phase committed.
pub open spec fn all_phases(p: RecoveryPhases) -> bool {
    p.branch_point && p.partial_messages && p.projection && p.recovery_snapshot
}

/// Every phase committed.
pub fn all_phases_succeeded(p: &RecoveryPhases) -> (r: bool)
    ensures
        r == all_phases(*p),
{
    p.branch_point && p.partial_messages && p.projection && p.recovery_snapshot
}

/// The terminal protocol marker: `committed` only when every phase did.
pub fn recovery_marker_phase(p: &RecoveryPhases) -> (r: &'static str)
    ensures
        r@ == if all_phases(*p) {
            "committed"@
        } else {
            "failed"@
        },
{
    if all_phases_succeeded(p) {
        "committed"
    } else {
        "failed"
    }
}

/// After a failed `committed` marker the protocol is failed too, and an
/// explicit `failed` marker is attempted.
pub fn needs_failed_marker_retry(p: &RecoveryPhases, terminal_marker: bool) -> (r: bool)
    ensures
        r == (all_phases(*p) && !terminal_marker),
{
    all_phases_succeeded(p) && !terminal_marker
}

/// Result of the repair: persisted only when every phase and the terminal
/// marker committed. `retry_marker` is the outcome of the `failed` marker
/// written after a failed `committed` marker (it matters only then).
pub open spec fn recovery_result_spec(p: RecoveryPhases, terminal_marker: bool, retry_marker: bool) -> RecoveryPersistenceResult {
    if all_phases(p) && terminal_marker {
        RecoveryPersistenceResult::Persisted
    } else {
        RecoveryPersistenceResult::Failed {
            branch_point: p.branch_point,
            partial_messages: p.partial_messages,
            recovery_snapshot: p.recovery_snapshot,
            projection: p.projection,
            failure_marker: if all_phases(p) {
                retry_marker
            } else {
                terminal_marker
            },
        }
    }
}

/// Result of the repair from what committed.
pub fn recovery_result(p: &RecoveryPhases, terminal_marker: bool, retry_marker: bool) -> (r:
    RecoveryPersistenceResult)
    ensures
        r == recovery_result_spec(*p, terminal_marker, retry_marker),
{
    let all = all_phases_succeeded(p);
    if all && terminal_marker {
        RecoveryPersistenceResult::Persisted
    } else {
        RecoveryPersistenceResult::Failed {
            branch_point: p.branch_point,
            partial_messages: p.partial_messages,
            recovery_snapshot: p.recovery_snapshot,
            projection: p.projection,
            failure_marker: if all {
                retry_marker
            } else {
                terminal_marker
            },
        }
    }
}

/// Result when the protocol could not even record that it started: nothing
/// committed, and the scratch partial stays authoritative.
pub fn recovery_not_started(failure_marker: bool) -> (r: RecoveryPersistenceResult)
    ensures
        r == (RecoveryPersistenceResult::Failed {
            branch_point: false,
            partial_messages: false,
            recovery_snapshot: false,
            projection: false,
            failure_marker,
        }),
{
    RecoveryPersistenceResult::Failed {
        branch_point: false,
        partial_messages: false,
        recovery_snapshot: false,
        projection: false,
        failure_marker,
    }
}

/// The text of a partial block worth recovering: trimmed, and only when
/// something is left.
pub fn recovery_block(text: &str) -> (r: Option<String>)
    ensures
        match r {
            Some(t) => t@ == trim_seq(text@) && t@.len() > 0,
            None => trim_seq(text@).len() == 0,
        },
{
    let chars = chars_of(text);
    let trimmed = trim_chars(chars.as_slice());
    if trimmed.len() == 0 {
        None
    } else {
        Some(string_of(trimmed.as_slice()))
    }
}

/// Law: the recovery repair lets the scratch partial be discarded exactly
/// when the branch point, the partial messages, the projection, the
/// recovery snapshot and the terminal marker all committed; a failed result
/// reports each phase as it went.
pub proof fn recovery_discards_only_when_all_committed(p: RecoveryPhases, terminal_marker: bool, retry_marker: bool)
    ensures
        (recovery_result_spec(p, terminal_marker, retry_marker) is Persisted) <==> (p.branch_point
            && p.partial_messages && p.projection && p.recovery_snapshot && terminal_marker),
        recovery_result_spec(p, terminal_marker, retry_marker) matches RecoveryPersistenceResult::Failed {
            branch_point,
            partial_messages,
            recovery_snapshot,
            projection,
            ..
        } ==> branch_point == p.branch_point && partial_messages == p.partial_messages
            && recovery_snapshot == p.recovery_snapshot && projection == p.projection,
{
}

/// Title of the notification sent when a run exhausts its step budget.
pub const BUDGET_EXHAUSTED_TITLE: &'static str = "任务步骤上限已用尽";

/// Body of the notification sent when a run exhausts its step budget.
pub const BUDGET_EXHAUSTED_BODY: &'static str = "本轮运行的步骤上限已用完，任务已暂停。发一条消息即可继续。";

} // verus!
