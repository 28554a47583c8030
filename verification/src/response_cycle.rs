//! The post-provider retry loop of one turn as a state machine: the policy
//! decision says whether to retry, the retry's result says whether the new
//! response replaces the candidate. The caller performs the sleeps and the
//! provider calls.

use vstd::prelude::*;
use crate::response_policy::{AfterLlmAction, ResponsePolicyState, classify_spec};
use crate::types::{Action, CanonicalMessage, LlmResponse};

verus! {

/// Which retry is in flight.
#[derive(Debug, Clone, Copy, PartialEq, Eq, Structural)]
pub enum RetryKind {
    Empty,
    CutOff,
}

/// What the caller does next.
#[derive(Debug, PartialEq, Eq)]
pub enum CycleDirective {
    /// The current candidate is accepted.
    Accept,
    /// Sleep `delay_ms`, then re-request (with `nudge` appended as a
    /// request-only user instruction when present).
    Retry { kind: RetryKind, delay_ms: u64, nudge: Option<&'static str> },
}

/// How a retry request ended.
pub enum RetryResult {
    /// A response carrying a payload (see `candidate_has_payload`).
    Payload,
    /// A response without any payload.
    NoPayload,
    /// The provider call was cancelled.
    Cancelled,
    /// The provider call failed with this message.
    Failed(String),
}

/// What becomes of the candidate after a retry.
pub enum RetryVerdict {
    /// The retried response replaces the candidate; ask the policy again.
    Replace,
    /// Keep the candidate and ask the policy again.
    KeepCandidate,
    /// Accept the current candidate as it is.
    AcceptCandidate,
    /// The turn was cancelled.
    Cancelled,
    /// The turn failed in a way the session can continue from.
    RetryableError(String),
}

/// Retry counters of one turn.
pub struct ResponseCycle {
    pub empty_retries_remaining: u32,
    pub empty_retry_delay_ms: u64,
    pub cut_off_retries: u32,
    pub cut_off_retries_max: u32,
    pub pending_ask: bool,
}

/// Retries still available: empty retries plus cut-off retries below the cap.
pub open spec fn cycle_measure(c: ResponseCycle) -> int {
    c.empty_retries_remaining + if c.cut_off_retries < c.cut_off_retries_max {
        c.cut_off_retries_max - c.cut_off_retries
    } else {
        0
    }
}

/// The policy state a cycle presents.
pub open spec fn policy_state_of(c: ResponseCycle) -> ResponsePolicyState {
    ResponsePolicyState {
        empty_retries_remaining: c.empty_retries_remaining,
        empty_retry_delay_ms: c.empty_retry_delay_ms,
        cut_off_retries_used: c.cut_off_retries,
        cut_off_retries_max: c.cut_off_retries_max,
        pending_ask: c.pending_ask,
    }
}

impl ResponseCycle {
    /// The policy state this cycle presents to the response policy.
    pub fn policy_state(&self) -> (r: ResponsePolicyState)
        ensures
            r == policy_state_of(*self),
    {
        ResponsePolicyState {
            empty_retries_remaining: self.empty_retries_remaining,
            empty_retry_delay_ms: self.empty_retry_delay_ms,
            cut_off_retries_used: self.cut_off_retries,
            cut_off_retries_max: self.cut_off_retries_max,
            pending_ask: self.pending_ask,
        }
    }

    /// Apply a policy decision: an empty retry spends one empty retry, a
    /// cut-off retry counts one more cut-off retry.
    pub fn on_decision(&mut self, decision: &AfterLlmAction) -> (r: CycleDirective)
        ensures
            final(self).empty_retry_delay_ms == old(self).empty_retry_delay_ms,
            final(self).cut_off_retries_max == old(self).cut_off_retries_max,
            final(self).pending_ask == old(self).pending_ask,
            match *decision {
                AfterLlmAction::Accept => r == CycleDirective::Accept && *final(self) == *old(self),
                AfterLlmAction::RetryEmpty { delay_ms } => {
                    &&& r == CycleDirective::Retry {
                        kind: RetryKind::Empty,
                        delay_ms,
                        nudge: None,
                    }
                    &&& final(self).empty_retries_remaining == if old(
                        self,
                    ).empty_retries_remaining > 0 {
                        (old(self).empty_retries_remaining - 1) as u32
                    } else {
                        0
                    }
                    &&& final(self).cut_off_retries == old(self).cut_off_retries
                },
                AfterLlmAction::RetryCutOff { nudge } => {
                    &&& r == CycleDirective::Retry {
                        kind: RetryKind::CutOff,
                        delay_ms: 0,
                        nudge: Some(nudge),
                    }
                    &&& final(self).empty_retries_remaining == old(self).empty_retries_remaining
                    &&& final(self).cut_off_retries == if old(self).cut_off_retries < u32::MAX {
                        (old(self).cut_off_retries + 1) as u32
                    } else {
                        u32::MAX
                    }
                },
            },
    {
        match decision {
            AfterLlmAction::Accept => CycleDirective::Accept,
            AfterLlmAction::RetryEmpty { delay_ms } => {
                self.empty_retries_remaining = self.empty_retries_remaining.saturating_sub(1);
                CycleDirective::Retry { kind: RetryKind::Empty, delay_ms: *delay_ms, nudge: None }
            },
            AfterLlmAction::RetryCutOff { nudge } => {
                self.cut_off_retries = self.cut_off_retries.saturating_add(1);
                CycleDirective::Retry { kind: RetryKind::CutOff, delay_ms: 0, nudge: Some(*nudge) }
            },
        }
    }

    /// Judge a finished retry. A response with a payload replaces the
    /// candidate. An empty retry without payload keeps it; a cut-off retry
    /// without payload accepts the candidate once the cut-off budget is
    /// spent and is a retryable error before that. Failures end the turn.
    pub fn on_retry_result(&self, kind: RetryKind, result: RetryResult) -> (r: RetryVerdict)
        ensures
            match result {
                RetryResult::Payload => r is Replace,
                RetryResult::NoPayload => match kind {
                    RetryKind::Empty => r is KeepCandidate,
                    RetryKind::CutOff => if self.cut_off_retries >= self.cut_off_retries_max {
                        r is AcceptCandidate
                    } else {
                        r matches RetryVerdict::RetryableError(m) && m@
                            == "cut-off retry returned no usable response"@
                    },
                },
                RetryResult::Cancelled => r is Cancelled,
                RetryResult::Failed(e) => r matches RetryVerdict::RetryableError(m) && m@ == (
                match kind {
                    RetryKind::Empty => "empty-response retry failed: "@,
                    RetryKind::CutOff => "cut-off retry failed: "@,
                }) + e@,
            },
    {
        match result {
            RetryResult::Payload => RetryVerdict::Replace,
            RetryResult::NoPayload => match kind {
                RetryKind::Empty => RetryVerdict::KeepCandidate,
                RetryKind::CutOff => if self.cut_off_retries >= self.cut_off_retries_max {
                    RetryVerdict::AcceptCandidate
                } else {
                    RetryVerdict::RetryableError(
                        String::from_str("cut-off retry returned no usable response"),
                    )
                },
            },
            RetryResult::Cancelled => RetryVerdict::Cancelled,
            RetryResult::Failed(e) => {
                let mut m = match kind {
                    RetryKind::Empty => String::from_str("empty-response retry failed: "),
                    RetryKind::CutOff => String::from_str("cut-off retry failed: "),
                };
                m.append(e.as_str());
                RetryVerdict::RetryableError(m)
            },
        }
    }
}

/// Law: the response policy only asks for a retry that the cycle can still
/// afford, so every retry the cycle performs strictly lowers the number of
/// retries left, and the retry loop of one turn ends after at most
/// `empty_retries_remaining + cut_off_retries_max` retries.
pub proof fn response_retries_are_bounded(
    c: ResponseCycle,
    thought: Option<String>,
    actions: Seq<Action>,
    response: LlmResponse,
    canonical: Seq<CanonicalMessage>,
    next: ResponseCycle,
)
    requires
        next.empty_retry_delay_ms == c.empty_retry_delay_ms,
        next.cut_off_retries_max == c.cut_off_retries_max,
        next.pending_ask == c.pending_ask,
        match classify_spec(thought, actions, response, canonical, policy_state_of(c)) {
            AfterLlmAction::Accept => true,
            AfterLlmAction::RetryEmpty { .. } => next.empty_retries_remaining == if c.empty_retries_remaining > 0 {
                (c.empty_retries_remaining - 1) as u32
            } else {
                0
            } && next.cut_off_retries == c.cut_off_retries,
            AfterLlmAction::RetryCutOff { .. } => next.empty_retries_remaining == c.empty_retries_remaining
                && next.cut_off_retries == if c.cut_off_retries < u32::MAX {
                (c.cut_off_retries + 1) as u32
            } else {
                u32::MAX
            },
        },
    ensures
        !(classify_spec(thought, actions, response, canonical, policy_state_of(c)) is Accept)
            ==> 0 <= cycle_measure(next) < cycle_measure(c),
{
}

} // verus!
