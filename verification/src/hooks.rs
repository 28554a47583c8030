//! Decisions of the loop's extension points: the pre-tool safety gate,
//! interval fact inference, the compaction trigger, and how attachments and
//! images enter the model's context.

use vstd::prelude::*;
use crate::text::{seq_starts_with, str_starts_with};
use crate::types::{CanonicalMessage, ContentPart, MessageAttachment};
use crate::tool_batch::{rejection_observation, rejection_observation_spec};

verus! {

/// How risky a gated tool call is judged to be.
#[derive(Debug, Clone, Copy, PartialEq, Eq, Structural)]
pub enum RiskLevel {
    /// Needs no confirmation.
    Safe,
    Low,
    Medium,
    High,
}

/// Verdict of the session's safety policy on one tool call.
pub enum ConfirmationResult {
    AutoApproved,
    Blocked { reason: String },
    RequiresConfirmation { risk_level: RiskLevel },
}

/// What the loop does with a tool call before running it.
pub enum BeforeToolAction {
    /// Run it now; `confirmed` records a prior user decision.
    Proceed { confirmed: Option<bool> },
    /// Do not run it; record `error` as its failed observation.
    Block { error: String },
    /// Pause the session until the user confirms.
    NeedConfirm { risk_level: RiskLevel },
}

/// Observation of a call the security policy blocked.
pub open spec fn blocked_observation_spec(tool_name: Seq<char>, reason: Seq<char>) -> Seq<char> {
    "operation '"@ + tool_name + "' is blocked by the security policy ("@ + reason
        + "). Do NOT retry it — ask the user what to do instead or choose a different approach."@
}

/// Gate action when a confirm pause already recorded the user's decision.
pub open spec fn resumed_action_matches(tool_name: Seq<char>, decision: bool, a: BeforeToolAction) -> bool {
    if decision {
        a == BeforeToolAction::Proceed { confirmed: Some(true) }
    } else {
        a matches BeforeToolAction::Block { error } && error@ == rejection_observation_spec(tool_name)
    }
}

/// Gate action for the policy's verdict.
pub open spec fn gated_action_matches(tool_name: Seq<char>, gate: ConfirmationResult, a: BeforeToolAction) -> bool {
    match gate {
        ConfirmationResult::AutoApproved => a == BeforeToolAction::Proceed { confirmed: None },
        ConfirmationResult::Blocked { reason } => a matches BeforeToolAction::Block { error } && error@
            == blocked_observation_spec(tool_name, reason@),
        ConfirmationResult::RequiresConfirmation { risk_level } => a == BeforeToolAction::NeedConfirm {
            risk_level,
        },
    }
}

/// Pre-tool decision on resume: a recorded confirmation runs the call, a
/// recorded rejection blocks it with a do-not-retry observation.
pub fn resumed_tool_action(tool_name: &str, decision: bool) -> (r: BeforeToolAction)
    ensures
        resumed_action_matches(tool_name@, decision, r),
{
    if decision {
        BeforeToolAction::Proceed { confirmed: Some(true) }
    } else {
        BeforeToolAction::Block { error: rejection_observation(tool_name) }
    }
}

/// Pre-tool decision from the security policy's verdict.
pub fn gated_tool_action(tool_name: &str, gate: ConfirmationResult) -> (r: BeforeToolAction)
    ensures
        gated_action_matches(tool_name@, gate, r),
{
    match gate {
        ConfirmationResult::AutoApproved => BeforeToolAction::Proceed { confirmed: None },
        ConfirmationResult::Blocked { reason } => {
            let mut error = String::from_str("operation '");
            error.append(tool_name);
            error.append("' is blocked by the security policy (");
            error.append(reason.as_str());
            error.append(
                "). Do NOT retry it — ask the user what to do instead or choose a different approach.",
            );
            BeforeToolAction::Block { error }
        },
        ConfirmationResult::RequiresConfirmation { risk_level } => BeforeToolAction::NeedConfirm {
            risk_level,
        },
    }
}

/// Interval fact inference runs on every `interval`-th step after the first;
/// an interval of 0 disables it.
pub open spec fn infer_due_spec(step_num: u32, interval: u32) -> bool {
    step_num > 0 && interval > 0 && step_num % interval == 0
}

/// Whether this step triggers interval fact inference.
pub fn interval_infer_due(step_num: u32, interval: u32) -> (r: bool)
    ensures
        r == infer_due_spec(step_num, interval),
{
    step_num > 0 && interval > 0 && step_num % interval == 0
}

/// Fewest messages worth compacting.
pub const MIN_COMPACTION_MESSAGES: usize = 4;

/// Compaction runs when the transcript is long enough and its estimated
/// size exceeds the threshold of the step's endpoint.
pub open spec fn compaction_due_spec(message_count: nat, estimated_tokens: u32, threshold_tokens: u32) -> bool {
    message_count >= MIN_COMPACTION_MESSAGES && estimated_tokens > threshold_tokens
}

/// Whether to compact before the next model call.
pub fn compaction_due(message_count: usize, estimated_tokens: u32, threshold_tokens: u32) -> (r: bool)
    ensures
        r == compaction_due_spec(message_count as nat, estimated_tokens, threshold_tokens),
{
    message_count >= MIN_COMPACTION_MESSAGES && estimated_tokens > threshold_tokens
}

/// Some message carries an image part.
pub open spec fn has_image_spec(messages: Seq<CanonicalMessage>) -> bool {
    exists|i: int, j: int|
        0 <= i < messages.len() && 0 <= j < messages[i].content@.len() && (#[trigger] messages[i].content@[j]) is Image
}

/// True when the transcript carries at least one image (the step then
/// routes through the vision endpoint).
pub fn canonical_has_image(messages: &[CanonicalMessage]) -> (r: bool)
    ensures
        r == has_image_spec(messages@),
{
    let mut i: usize = 0;
    while i < messages.len()
        invariant
            i <= messages@.len(),
            forall|a: int, b: int|
                0 <= a < i && 0 <= b < messages@[a].content@.len() ==> !((#[trigger] messages@[a].content@[b]) is Image),
        decreases messages.len() - i,
    {
        let parts = &messages[i].content;
        let mut j: usize = 0;
        while j < parts.len()
            invariant
                i < messages@.len(),
                parts == messages@[i as int].content,
                j <= parts@.len(),
                forall|b: int| 0 <= b < j ==> !((#[trigger] parts@[b]) is Image),
            decreases parts.len() - j,
        {
            match &parts[j] {
                ContentPart::Image { .. } => {
                    assert(messages@[i as int].content@[j as int] is Image);
                    return true;
                },
                _ => {},
            }
            j += 1;
        }
        i += 1;
    }
    false
}

/// The attachment is an image.
pub open spec fn is_image_spec(att: MessageAttachment) -> bool {
    seq_starts_with(att.media_type@, "image/"@)
}

/// Text standing in for a non-image attachment: its name and, when it was
/// persisted, where the file tool can read it.
pub open spec fn attachment_note(att: MessageAttachment) -> Seq<char> {
    let name = match att.filename {
        Some(f) => f@,
        None => "attachment"@,
    };
    match att.path {
        Some(p) => "[附件: "@ + name + "，路径: "@ + p@ + "]"@,
        None => "[附件: "@ + name + "]"@,
    }
}

/// An attachment as a content part: images as vision parts, other files as
/// a short reference, never their bytes.
pub fn attachment_to_content_part(att: &MessageAttachment) -> (r: ContentPart)
    ensures
        is_image_spec(*att) ==> (r matches ContentPart::Image { media_type, data } && media_type@
            == att.media_type@ && data@ == att.data@),
        !is_image_spec(*att) ==> (r matches ContentPart::Text(t) && t@ == attachment_note(*att)),
{
    if str_starts_with(att.media_type.as_str(), "image/") {
        return ContentPart::Image { media_type: att.media_type.clone(), data: att.data.clone() };
    }
    let mut out = String::from_str("[附件: ");
    match &att.filename {
        Some(f) => out.append(f.as_str()),
        None => out.append("attachment"),
    }
    match &att.path {
        Some(p) => {
            out.append("，路径: ");
            out.append(p.as_str());
            out.append("]");
        },
        None => out.append("]"),
    }
    ContentPart::Text(out)
}

/// Law: an image part in any message of the transcript, not only the last,
/// makes the transcript carry an image; a transcript without any image
/// part carries none.
pub proof fn an_image_anywhere_counts(messages: Seq<CanonicalMessage>, i: int, j: int)
    ensures
        (0 <= i < messages.len() && 0 <= j < messages[i].content@.len() && messages[i].content@[j] is Image)
            ==> has_image_spec(messages),
        (forall|a: int, b: int|
            0 <= a < messages.len() && 0 <= b < messages[a].content@.len() ==> !(messages[a].content@[b] is Image))
            ==> !has_image_spec(messages),
{
    if 0 <= i < messages.len() && 0 <= j < messages[i].content@.len() && messages[i].content@[j] is Image {
        assert(messages[i].content@[j] is Image);
    }
}

} // verus!
