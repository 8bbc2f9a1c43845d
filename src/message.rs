//! The conversation model: messages, content blocks, tool descriptors and the
//! error taxonomy of a run.

use vstd::prelude::*;
use crate::text::{decimal, decimal_digits};

verus! {

/// Structured data (tool input, input schema) that the core carries through
/// without reading it.
#[verifier::external_type_specification]
#[verifier::external_body]
pub struct ExJsonValue(serde_json::Value);

/// Relies on the derived `Clone` of `serde_json::Value`: a deep copy, equal to
/// the original.
pub assume_specification[ <serde_json::Value as Clone>::clone ](v: &serde_json::Value) -> (r:
    serde_json::Value)
    ensures
        r == *v,
;

/// Why a run, or the construction of an agent, failed.
#[derive(Debug, Clone, PartialEq, Eq)]
pub enum AgentError {
    /// No usable credential was supplied.
    ConfigError(String),
    /// The exchange with the backend failed below the protocol level.
    TransportError(String),
    /// The backend answered with a status outside the success range.
    ApiError { status: u16, body: String },
    /// The backend's answer does not have the expected shape.
    ParseError(String),
    /// The model asked for a tool that the catalog does not hold.
    ToolNotFound(String),
    /// The caller cancelled the run.
    Cancelled,
}

/// The abstract value of an [`AgentError`]: its texts as character sequences.
pub enum ErrorModel {
    ConfigError(Seq<char>),
    TransportError(Seq<char>),
    ApiError { status: u16, body: Seq<char> },
    ParseError(Seq<char>),
    ToolNotFound(Seq<char>),
    Cancelled,
}

impl View for AgentError {
    type V = ErrorModel;

    open spec fn view(&self) -> ErrorModel {
        match self {
            AgentError::ConfigError(m) => ErrorModel::ConfigError(m@),
            AgentError::TransportError(m) => ErrorModel::TransportError(m@),
            AgentError::ApiError { status, body } => ErrorModel::ApiError {
                status: *status,
                body: body@,
            },
            AgentError::ParseError(m) => ErrorModel::ParseError(m@),
            AgentError::ToolNotFound(n) => ErrorModel::ToolNotFound(n@),
            AgentError::Cancelled => ErrorModel::Cancelled,
        }
    }
}

/// The human-readable text of an error.
pub open spec fn error_text(e: ErrorModel) -> Seq<char> {
    match e {
        ErrorModel::ConfigError(m) => "Configuration error: "@ + m,
        ErrorModel::TransportError(m) => "Transport error: "@ + m,
        ErrorModel::ApiError { status, body } => "API error: status "@ + decimal_digits(
            status as nat,
        ) + ": "@ + body,
        ErrorModel::ParseError(m) => "Parse error: "@ + m,
        ErrorModel::ToolNotFound(n) => "Tool not found: "@ + n,
        ErrorModel::Cancelled => "Agent execution cancelled"@,
    }
}

impl AgentError {
    /// The human-readable text of this error.
    pub fn to_string(&self) -> (r: String)
        ensures
            r@ == error_text(self@),
    {
        match self {
            AgentError::ConfigError(m) => "Configuration error: ".to_string().concat(m.as_str()),
            AgentError::TransportError(m) => "Transport error: ".to_string().concat(m.as_str()),
            AgentError::ApiError { status, body } => {
                let digits = decimal(*status as u64);
                "API error: status ".to_string().concat(digits.as_str()).concat(": ").concat(
                    body.as_str(),
                )
            },
            AgentError::ParseError(m) => "Parse error: ".to_string().concat(m.as_str()),
            AgentError::ToolNotFound(n) => "Tool not found: ".to_string().concat(n.as_str()),
            AgentError::Cancelled => "Agent execution cancelled".to_string(),
        }
    }
}

/// One item of an assistant turn.
#[derive(Debug, Clone, PartialEq)]
pub enum ContentBlock {
    /// Free text.
    Text { text: String },
    /// A request to run the tool `name` on `input`; `id` is assigned by the
    /// backend and correlates the request with its result.
    ToolUse { id: String, name: String, input: serde_json::Value },
}

/// The abstract value of a [`ContentBlock`].
pub enum BlockModel {
    Text { text: Seq<char> },
    ToolUse { id: Seq<char>, name: Seq<char>, input: serde_json::Value },
}

impl View for ContentBlock {
    type V = BlockModel;

    open spec fn view(&self) -> BlockModel {
        match self {
            ContentBlock::Text { text } => BlockModel::Text { text: text@ },
            ContentBlock::ToolUse { id, name, input } => BlockModel::ToolUse {
                id: id@,
                name: name@,
                input: *input,
            },
        }
    }
}

/// The abstract values of a sequence of content blocks.
pub open spec fn blocks_view(blocks: Seq<ContentBlock>) -> Seq<BlockModel> {
    blocks.map_values(|b: ContentBlock| b@)
}

/// One turn of the conversation.
#[derive(Debug, Clone, PartialEq)]
#[allow(inconsistent_fields)]
pub enum Message {
    /// Text contributed by the caller.
    User { content: String },
    /// The blocks that the model produced, in order.
    Assistant { content: Vec<ContentBlock> },
    /// The output (or error text) of running the tool invocation `tool_use_id`.
    ToolResult { tool_use_id: String, content: String },
}

/// The abstract value of a [`Message`].
#[allow(inconsistent_fields)]
pub enum MessageModel {
    User { content: Seq<char> },
    Assistant { content: Seq<BlockModel> },
    ToolResult { tool_use_id: Seq<char>, content: Seq<char> },
}

impl View for Message {
    type V = MessageModel;

    open spec fn view(&self) -> MessageModel {
        match self {
            Message::User { content } => MessageModel::User { content: content@ },
            Message::Assistant { content } => MessageModel::Assistant {
                content: blocks_view(content@),
            },
            Message::ToolResult { tool_use_id, content } => MessageModel::ToolResult {
                tool_use_id: tool_use_id@,
                content: content@,
            },
        }
    }
}

/// The abstract values of a sequence of messages.
pub open spec fn messages_view(messages: Seq<Message>) -> Seq<MessageModel> {
    messages.map_values(|m: Message| m@)
}

/// A tool that the backend may ask for: its name, what it does, and the shape
/// of the input it expects.
#[derive(Debug, Clone, PartialEq)]
pub struct Tool {
    pub name: String,
    pub description: String,
    pub input_schema: serde_json::Value,
}

/// The abstract value of a [`Tool`].
pub struct ToolModel {
    pub name: Seq<char>,
    pub description: Seq<char>,
    pub input_schema: serde_json::Value,
}

impl View for Tool {
    type V = ToolModel;

    open spec fn view(&self) -> ToolModel {
        ToolModel {
            name: self.name@,
            description: self.description@,
            input_schema: self.input_schema,
        }
    }
}

/// The abstract values of a sequence of tools.
pub open spec fn tools_view(tools: Seq<Tool>) -> Seq<ToolModel> {
    tools.map_values(|t: Tool| t@)
}

impl Tool {
    /// A copy of this descriptor.
    pub fn duplicate(&self) -> (r: Tool)
        ensures
            r@ == self@,
    {
        Tool {
            name: self.name.clone(),
            description: self.description.clone(),
            input_schema: self.input_schema.clone(),
        }
    }
}

} // verus!
