//! The conversation and model-response values the loop policies read.

use vstd::prelude::*;
use crate::json::Json;

verus! {

/// Author of a canonical transcript message.
#[derive(Debug, Clone, Copy, PartialEq, Eq, Structural)]
pub enum CanonicalRole {
    System,
    User,
    Assistant,
    Tool,
}

/// One part of a message body.
pub enum ContentPart {
    Text(String),
    Image { media_type: String, data: String },
    Audio { media_type: String, data: String },
}

/// One provider-neutral transcript message.
pub struct CanonicalMessage {
    pub role: CanonicalRole,
    pub content: Vec<ContentPart>,
    /// For tool messages: the call this observation answers.
    pub tool_call_id: Option<String>,
}

impl CanonicalMessage {
    /// A user message holding one text part.
    pub fn user_text(text: String) -> (r: CanonicalMessage)
        ensures
            r.role == CanonicalRole::User,
            r.content@.len() == 1,
            r.content@[0] matches ContentPart::Text(t) && t@ == text@,
            r.tool_call_id is None,
    {
        let mut content = Vec::new();
        content.push(ContentPart::Text(text));
        CanonicalMessage { role: CanonicalRole::User, content, tool_call_id: None }
    }

    /// A tool observation holding the given parts.
    pub fn tool(content: Vec<ContentPart>, tool_call_id: Option<String>) -> (r: CanonicalMessage)
        ensures
            r.role == CanonicalRole::Tool,
            r.content == content,
            r.tool_call_id == tool_call_id,
    {
        CanonicalMessage { role: CanonicalRole::Tool, content, tool_call_id }
    }

    /// An assistant message holding the given parts.
    pub fn assistant(content: Vec<ContentPart>) -> (r: CanonicalMessage)
        ensures
            r.role == CanonicalRole::Assistant,
            r.content == content,
            r.tool_call_id is None,
    {
        CanonicalMessage { role: CanonicalRole::Assistant, content, tool_call_id: None }
    }
}

/// Why the provider stopped generating.
#[derive(Debug, Clone, Copy, PartialEq, Eq, Structural)]
pub enum FinishReason {
    Stop,
    Length,
    ToolCalls,
    ContentFilter,
    Other,
}

/// One tool call as the provider returned it.
pub struct ToolCall {
    pub id: String,
    pub name: String,
    pub arguments: Json,
}

/// A complete model response. Web-search rounds and thinking blocks are
/// kept as counts: the loop only asks whether there were any.
pub struct LlmResponse {
    pub text: String,
    pub tool_calls: Vec<ToolCall>,
    pub finish_reason: Option<FinishReason>,
    pub reasoning: Option<String>,
    pub web_search_calls: usize,
    pub thinking_blocks: usize,
}

/// One action parsed from a model response.
pub struct Action {
    pub tool_name: String,
    pub tool_input: Json,
    pub is_final: bool,
    pub tool_call_id: Option<String>,
}

/// A file or media attachment of a user message.
pub struct MessageAttachment {
    pub media_type: String,
    /// Base64 payload.
    pub data: String,
    pub filename: Option<String>,
    /// Where a non-image file was persisted.
    pub path: Option<String>,
}

} // verus!
