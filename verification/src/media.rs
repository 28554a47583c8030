//! Media parts of a provider request: reconnecting raw image/audio parts
//! with the durable media metadata of the injections that carried them,
//! reading a raw part back as an attachment, and the text that replaces a
//! part the selected model cannot take.

use vstd::prelude::*;
use crate::types::{CanonicalMessage, ContentPart, MessageAttachment};

verus! {

/// An image or audio part.
pub open spec fn is_media(p: ContentPart) -> bool {
    p is Image || p is Audio
}

/// Number of media parts among the first `n` parts.
pub open spec fn media_count(parts: Seq<ContentPart>, n: int) -> nat
    decreases n,
{
    if n <= 0 {
        0
    } else {
        media_count(parts, n - 1) + if is_media(parts[n - 1]) {
            1nat
        } else {
            0nat
        }
    }
}

/// Number of messages, among the first `i`, carrying media.
pub open spec fn media_messages_before(msgs: Seq<CanonicalMessage>, i: int) -> nat
    decreases i,
{
    if i <= 0 {
        0
    } else {
        media_messages_before(msgs, i - 1) + if media_count(msgs[i - 1].content@, msgs[i - 1].content@.len() as int)
            > 0 {
            1nat
        } else {
            0nat
        }
    }
}

/// Where the durable metadata of part `j` of message `i` lives: the k-th
/// input of the g-th media-bearing injection, when that input exists.
pub open spec fn media_slot(group_sizes: Seq<usize>, msgs: Seq<CanonicalMessage>, i: int, j: int) -> Option<(usize, usize)> {
    if is_media(msgs[i].content@[j]) {
        let g = media_messages_before(msgs, i);
        let k = media_count(msgs[i].content@, j);
        if g < group_sizes.len() && k < group_sizes[g as int] {
            Some((g as usize, k as usize))
        } else {
            None
        }
    } else {
        None
    }
}

fn part_is_media(p: &ContentPart) -> (r: bool)
    ensures
        r == is_media(*p),
{
    match p {
        ContentPart::Text(_) => false,
        _ => true,
    }
}

/// Align the durable media inputs of the transcript's injections
/// (`group_sizes[g]`: inputs of the g-th injection that carried media) with
/// the raw media parts of the request's messages, in order: the n-th
/// message with media takes the n-th group, its k-th media part the k-th
/// input. Parts without a durable input, and text parts, get `None`.
pub fn align_media_inputs(group_sizes: &[usize], messages: &[CanonicalMessage]) -> (r: Vec<Vec<Option<(usize, usize)>>>)
    ensures
        r@.len() == messages@.len(),
        forall|i: int| 0 <= i < messages@.len() ==> (#[trigger] r@[i])@.len() == messages@[i].content@.len(),
        forall|i: int, j: int|
            0 <= i < messages@.len() && 0 <= j < messages@[i].content@.len() ==> (#[trigger] r@[i]@[j])
                == media_slot(group_sizes@, messages@, i, j),
{
    let mut out: Vec<Vec<Option<(usize, usize)>>> = Vec::new();
    let mut group: usize = 0;
    let mut i: usize = 0;
    while i < messages.len()
        invariant
            i <= messages@.len(),
            out@.len() == i,
            group as nat == media_messages_before(messages@, i as int),
            group <= i,
            forall|a: int| 0 <= a < i ==> (#[trigger] out@[a])@.len() == messages@[a].content@.len(),
            forall|a: int, b: int|
                0 <= a < i && 0 <= b < messages@[a].content@.len() ==> (#[trigger] out@[a]@[b]) == media_slot(
                    group_sizes@,
                    messages@,
                    a,
                    b,
                ),
        decreases messages.len() - i,
    {
        let parts = &messages[i].content;
        let mut row: Vec<Option<(usize, usize)>> = Vec::new();
        let mut k: usize = 0;
        let mut j: usize = 0;
        while j < parts.len()
            invariant
                i < messages@.len(),
                parts == messages@[i as int].content,
                j <= parts@.len(),
                row@.len() == j,
                k as nat == media_count(parts@, j as int),
                k <= j,
                group as nat == media_messages_before(messages@, i as int),
                forall|b: int| 0 <= b < j ==> #[trigger] row@[b] == media_slot(group_sizes@, messages@, i as int, b),
            decreases parts.len() - j,
        {
            if part_is_media(&parts[j]) {
                let slot = if group < group_sizes.len() && k < group_sizes[group] {
                    Some((group, k))
                } else {
                    None
                };
                row.push(slot);
                k += 1;
            } else {
                row.push(None);
            }
            j += 1;
        }
        if k > 0 {
            group += 1;
        }
        proof {
            assert(media_count(messages@[i as int].content@, messages@[i as int].content@.len() as int) == k);
        }
        out.push(row);
        proof {
            assert forall|a: int, b: int|
                0 <= a < i + 1 && 0 <= b < messages@[a].content@.len() implies (#[trigger] out@[a]@[b])
                == media_slot(group_sizes@, messages@, a, b) by {
                if a < i {
                    assert(out@[a] == out@[a]);
                }
            }
        }
        i += 1;
    }
    out
}

/// A raw media part read back as an attachment (type and payload only; a
/// path or managed id cannot be recovered from a raw part).
pub fn attachment_from_content_part(part: &ContentPart) -> (r: Option<MessageAttachment>)
    ensures
        match *part {
            ContentPart::Text(_) => r is None,
            ContentPart::Image { media_type, data } => r matches Some(a) && a.media_type@ == media_type@
                && a.data@ == data@ && a.filename is None && a.path is None,
            ContentPart::Audio { media_type, data } => r matches Some(a) && a.media_type@ == media_type@
                && a.data@ == data@ && a.filename is None && a.path is None,
        },
{
    match part {
        ContentPart::Text(_) => None,
        ContentPart::Image { media_type, data } => Some(
            MessageAttachment { media_type: media_type.clone(), data: data.clone(), filename: None, path: None },
        ),
        ContentPart::Audio { media_type, data } => Some(
            MessageAttachment { media_type: media_type.clone(), data: data.clone(), filename: None, path: None },
        ),
    }
}

/// Text that stands in for a media part the selected model cannot take.
pub open spec fn media_placeholder_spec(part: ContentPart) -> Seq<char> {
    if part is Image {
        "[附件: 图片；当前模型不支持安全的媒体输入，已降级为文本占位]"@
    } else {
        "[附件: 音频；当前模型不支持安全的媒体输入，已降级为文本占位]"@
    }
}

/// The placeholder part for a media part that cannot be sent.
pub fn media_placeholder(part: &ContentPart) -> (r: ContentPart)
    ensures
        r matches ContentPart::Text(t) && t@ == media_placeholder_spec(*part),
{
    match part {
        ContentPart::Image { .. } => ContentPart::Text(
            String::from_str("[附件: 图片；当前模型不支持安全的媒体输入，已降级为文本占位]"),
        ),
        _ => ContentPart::Text(String::from_str("[附件: 音频；当前模型不支持安全的媒体输入，已降级为文本占位]")),
    }
}

} // verus!
