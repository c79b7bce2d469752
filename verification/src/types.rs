//! The OpenAI chat-completions protocol as plain data: requests, messages,
//! responses, streaming chunks and the model list.

use vstd::prelude::*;

verus! {

/// An arbitrary JSON document, carried through unread (tool schemas, tool
/// arguments, `tool_choice`).
#[verifier::external_type_specification]
#[verifier::external_body]
pub struct ExJsonValue(serde_json::Value);

/// The function that a tool call invokes, with its JSON-encoded arguments.
pub struct FunctionCall {
    pub name: String,
    pub arguments: String,
}

/// A tool call made by the assistant.
pub struct ToolCall {
    pub id: String,
    /// Always `function` in this protocol.
    pub call_type: String,
    pub function: FunctionCall,
}

/// The address of an image in a multi-part message.
pub struct ImageUrl {
    pub url: String,
    pub detail: Option<String>,
}

/// One part of a multi-part message.
pub enum ContentPart {
    Text { text: String },
    ImageUrl { image_url: ImageUrl },
    /// A part of a kind that this server does not read.
    Other,
}

/// The content of a message: plain text, a list of parts, or nothing.
pub enum MessageContent {
    Text(String),
    Parts(Vec<ContentPart>),
    Null,
}

/// One message of a conversation.
pub struct ChatMessage {
    /// `system`, `user`, `assistant`, `tool`, or another role name.
    pub role: String,
    pub content: MessageContent,
    pub name: Option<String>,
    pub tool_calls: Option<Vec<ToolCall>>,
    pub tool_call_id: Option<String>,
}

/// Streaming options of a request.
pub struct StreamOptions {
    /// Whether a final chunk carries the token usage.
    pub include_usage: bool,
}

/// A function that the client offers to the model as a tool.
pub struct FunctionDefinition {
    pub name: String,
    pub description: Option<String>,
    /// JSON schema of the arguments.
    pub parameters: Option<serde_json::Value>,
}

/// A tool declared by the client.
pub struct ToolDefinition {
    /// Always `function` in this protocol.
    pub tool_type: String,
    pub function: FunctionDefinition,
}

/// The fields of a chat-completions request that this server reads or passes on
/// (sampling parameters, which it ignores, are not held here).
pub struct ChatCompletionRequest {
    /// Model id; blank means the configured default.
    pub model: String,
    pub messages: Vec<ChatMessage>,
    pub stream: bool,
    pub stream_options: Option<StreamOptions>,
    pub tools: Option<Vec<ToolDefinition>>,
    pub tool_choice: Option<serde_json::Value>,
    pub max_tokens: Option<u32>,
    pub n: Option<u32>,
    pub user: Option<String>,
}

/// Token counts of a completion.
#[derive(Clone, Copy, Debug, PartialEq, Eq, Structural)]
pub struct Usage {
    pub prompt_tokens: u32,
    pub completion_tokens: u32,
    pub total_tokens: u32,
}

impl Usage {
    /// The usage with no tokens.
    pub open spec fn zero_spec() -> Usage {
        Usage { prompt_tokens: 0, completion_tokens: 0, total_tokens: 0 }
    }

    /// No tokens counted yet.
    pub fn zero() -> (u: Usage)
        ensures
            u == Usage::zero_spec(),
    {
        Usage { prompt_tokens: 0, completion_tokens: 0, total_tokens: 0 }
    }
}

/// One choice of a complete (non-streamed) response.
pub struct Choice {
    pub index: u32,
    pub message: ChatMessage,
    pub finish_reason: String,
}

/// A complete (non-streamed) chat-completions response.
pub struct ChatCompletionResponse {
    pub id: String,
    pub object: &'static str,
    pub created: i64,
    pub model: String,
    pub choices: Vec<Choice>,
    pub usage: Option<Usage>,
}

/// The function part of a streamed tool-call delta.
pub struct FunctionCallDelta {
    pub name: Option<String>,
    pub arguments: Option<String>,
}

/// A streamed tool call.
pub struct ToolCallDelta {
    /// Position of the call among the calls of this response, from 0.
    pub index: u32,
    pub id: Option<String>,
    pub call_type: Option<String>,
    pub function: Option<FunctionCallDelta>,
}

/// What a streamed chunk adds to the assistant message.
pub struct Delta {
    pub role: Option<String>,
    pub content: Option<String>,
    pub tool_calls: Option<Vec<ToolCallDelta>>,
}

/// One choice of a streamed chunk.
pub struct ChunkChoice {
    pub index: u32,
    pub delta: Delta,
    pub finish_reason: Option<String>,
}

/// One streamed chunk of a chat-completions response.
pub struct ChatCompletionChunk {
    pub id: String,
    pub object: &'static str,
    pub created: i64,
    pub model: String,
    pub choices: Vec<ChunkChoice>,
    pub usage: Option<Usage>,
}

/// What a model can do, as Copilot reports it.
#[derive(Clone, Copy, Debug)]
pub struct ModelCapabilities {
    pub vision: Option<bool>,
    pub reasoning_effort: Option<bool>,
    /// Size of the context window in tokens.
    pub max_context_window_tokens: Option<u64>,
}

/// A model that the Copilot account can use, as the SDK lists it.
pub struct ModelInfo {
    pub id: String,
    pub display_name: Option<String>,
    pub capabilities: Option<ModelCapabilities>,
    /// The billing multiplier, a JSON number.
    pub billing_multiplier: Option<serde_json::Value>,
    pub policy_state: Option<String>,
    pub supported_reasoning_efforts: Option<Vec<String>>,
    pub default_reasoning_effort: Option<String>,
}

/// One entry of the model list.
pub struct ModelObject {
    pub id: String,
    pub object: &'static str,
    pub created: i64,
    pub owned_by: String,
    pub display_name: Option<String>,
    pub capabilities: Option<ModelCapabilities>,
    pub billing_multiplier: Option<serde_json::Value>,
    pub policy_state: Option<String>,
    pub supported_reasoning_efforts: Option<Vec<String>>,
    pub default_reasoning_effort: Option<String>,
}

/// The answer to `GET /v1/models`.
pub struct ModelList {
    pub object: &'static str,
    pub data: Vec<ModelObject>,
}

} // verus!
