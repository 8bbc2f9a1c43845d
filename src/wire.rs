//! The backend's wire format: the request that carries the conversation and
//! the tool catalog, and the response that carries the model's output.
//!
//! The types here mirror the JSON shapes one for one; turning them into bytes
//! and back is left to the transport.

use vstd::prelude::*;
use crate::message::{
    AgentError, BlockModel, ContentBlock, ErrorModel, Message, MessageModel, Tool, ToolModel,
    blocks_view, messages_view, tools_view,
};

verus! {

/// The backend's endpoint.
pub const API_URL: &'static str = "https://api.anthropic.com/v1/messages";

/// The protocol version sent with every exchange.
pub const API_VERSION: &'static str = "2023-06-01";

/// The token budget of one exchange.
pub const MAX_TOKENS: u32 = 1024;

/// One content item on the wire (`{"type": "text" | "tool_use" | "tool_result", ...}`).
#[derive(Debug, Clone, PartialEq)]
pub enum ApiBlock {
    Text { text: String },
    ToolUse { id: String, name: String, input: serde_json::Value },
    ToolResult { tool_use_id: String, content: String },
}

/// The abstract value of an [`ApiBlock`].
pub enum ItemModel {
    Text { text: Seq<char> },
    ToolUse { id: Seq<char>, name: Seq<char>, input: serde_json::Value },
    ToolResult { tool_use_id: Seq<char>, content: Seq<char> },
}

impl View for ApiBlock {
    type V = ItemModel;

    open spec fn view(&self) -> ItemModel {
        match self {
            ApiBlock::Text { text } => ItemModel::Text { text: text@ },
            ApiBlock::ToolUse { id, name, input } => ItemModel::ToolUse {
                id: id@,
                name: name@,
                input: *input,
            },
            ApiBlock::ToolResult { tool_use_id, content } => ItemModel::ToolResult {
                tool_use_id: tool_use_id@,
                content: content@,
            },
        }
    }
}

/// The abstract values of a sequence of wire items.
pub open spec fn items_view(items: Seq<ApiBlock>) -> Seq<ItemModel> {
    items.map_values(|i: ApiBlock| i@)
}

/// The wire item of a content block.
pub open spec fn encode_block_spec(b: BlockModel) -> ItemModel {
    match b {
        BlockModel::Text { text } => ItemModel::Text { text },
        BlockModel::ToolUse { id, name, input } => ItemModel::ToolUse { id, name, input },
    }
}

/// The content block that a wire item of a response stands for; a tool
/// result has no place in a response.
pub open spec fn decode_item_spec(i: ItemModel) -> Option<BlockModel> {
    match i {
        ItemModel::Text { text } => Some(BlockModel::Text { text }),
        ItemModel::ToolUse { id, name, input } => Some(BlockModel::ToolUse { id, name, input }),
        ItemModel::ToolResult { .. } => None,
    }
}

/// The text of the parse error raised by a tool result in a response.
pub open spec fn misplaced_result_text() -> Seq<char> {
    "unexpected tool_result block in response"@
}

/// Encoding a block and decoding the item gives the block back: same id,
/// name and input for a tool invocation, same text for a text block.
pub proof fn lemma_block_round_trip(b: BlockModel)
    ensures
        decode_item_spec(encode_block_spec(b)) == Some(b),
{
}

/// The wire item of a content block.
pub fn encode_block(b: &ContentBlock) -> (r: ApiBlock)
    ensures
        r@ == encode_block_spec(b@),
{
    match b {
        ContentBlock::Text { text } => ApiBlock::Text { text: text.clone() },
        ContentBlock::ToolUse { id, name, input } => ApiBlock::ToolUse {
            id: id.clone(),
            name: name.clone(),
            input: input.clone(),
        },
    }
}

/// The content block of a response item; a tool result is a parse error.
pub fn decode_block(item: &ApiBlock) -> (r: Result<ContentBlock, AgentError>)
    ensures
        match decode_item_spec(item@) {
            Some(b) => r matches Ok(c) && c@ == b,
            None => r matches Err(e) && e@ == ErrorModel::ParseError(misplaced_result_text()),
        },
{
    match item {
        ApiBlock::Text { text } => Ok(ContentBlock::Text { text: text.clone() }),
        ApiBlock::ToolUse { id, name, input } => Ok(
            ContentBlock::ToolUse { id: id.clone(), name: name.clone(), input: input.clone() },
        ),
        ApiBlock::ToolResult { .. } => Err(
            AgentError::ParseError("unexpected tool_result block in response".to_string()),
        ),
    }
}

/// The content of a wire message: plain text, or a list of items.
#[derive(Debug, Clone, PartialEq)]
pub enum ApiContent {
    Text(String),
    Items(Vec<ApiBlock>),
}

/// The abstract value of an [`ApiContent`].
pub enum ContentModel {
    Text(Seq<char>),
    Items(Seq<ItemModel>),
}

impl View for ApiContent {
    type V = ContentModel;

    open spec fn view(&self) -> ContentModel {
        match self {
            ApiContent::Text(t) => ContentModel::Text(t@),
            ApiContent::Items(items) => ContentModel::Items(items_view(items@)),
        }
    }
}

/// One turn on the wire: a role (`"user"` or `"assistant"`) and its content.
#[derive(Debug, Clone, PartialEq)]
pub struct ApiMessage {
    pub role: String,
    pub content: ApiContent,
}

/// The abstract value of an [`ApiMessage`].
pub struct WireMessageModel {
    pub role: Seq<char>,
    pub content: ContentModel,
}

impl View for ApiMessage {
    type V = WireMessageModel;

    open spec fn view(&self) -> WireMessageModel {
        WireMessageModel { role: self.role@, content: self.content@ }
    }
}

/// The abstract values of a sequence of wire messages.
pub open spec fn wire_messages_view(ms: Seq<ApiMessage>) -> Seq<WireMessageModel> {
    ms.map_values(|m: ApiMessage| m@)
}

/// The wire form of a message. Tool results travel in a user turn, since the
/// backend knows only the user and assistant roles.
pub open spec fn encode_message_spec(m: MessageModel) -> WireMessageModel {
    match m {
        MessageModel::User { content } => WireMessageModel {
            role: "user"@,
            content: ContentModel::Text(content),
        },
        MessageModel::Assistant { content } => WireMessageModel {
            role: "assistant"@,
            content: ContentModel::Items(content.map_values(|b: BlockModel| encode_block_spec(b))),
        },
        MessageModel::ToolResult { tool_use_id, content } => WireMessageModel {
            role: "user"@,
            content: ContentModel::Items(seq![ItemModel::ToolResult { tool_use_id, content }]),
        },
    }
}

/// The wire form of a conversation, message by message.
pub open spec fn encode_messages_spec(ms: Seq<MessageModel>) -> Seq<WireMessageModel> {
    ms.map_values(|m: MessageModel| encode_message_spec(m))
}

/// The wire form of one message.
pub fn encode_message(m: &Message) -> (r: ApiMessage)
    ensures
        r@ == encode_message_spec(m@),
{
    match m {
        Message::User { content } => ApiMessage {
            role: "user".to_string(),
            content: ApiContent::Text(content.clone()),
        },
        Message::Assistant { content } => {
            let mut items: Vec<ApiBlock> = Vec::new();
            let mut i: usize = 0;
            while i < content.len()
                invariant
                    i <= content@.len(),
                    items@.len() == i,
                    forall|k: int|
                        0 <= k < i ==> #[trigger] items@[k]@ == encode_block_spec(content@[k]@),
                decreases content@.len() - i,
            {
                items.push(encode_block(&content[i]));
                i += 1;
            }
            assert(items_view(items@) =~= blocks_view(content@).map_values(
                |b: BlockModel| encode_block_spec(b),
            ));
            ApiMessage { role: "assistant".to_string(), content: ApiContent::Items(items) }
        },
        Message::ToolResult { tool_use_id, content } => {
            let mut items: Vec<ApiBlock> = Vec::new();
            items.push(
                ApiBlock::ToolResult { tool_use_id: tool_use_id.clone(), content: content.clone() },
            );
            assert(items_view(items@) =~= seq![
                ItemModel::ToolResult { tool_use_id: tool_use_id@, content: content@ },
            ]);
            ApiMessage { role: "user".to_string(), content: ApiContent::Items(items) }
        },
    }
}

/// The wire form of a conversation, message by message, in order.
pub fn messages_to_api_format(messages: &[Message]) -> (r: Vec<ApiMessage>)
    ensures
        wire_messages_view(r@) == encode_messages_spec(messages_view(messages@)),
{
    let mut out: Vec<ApiMessage> = Vec::new();
    let mut i: usize = 0;
    while i < messages.len()
        invariant
            i <= messages@.len(),
            out@.len() == i,
            forall|k: int|
                0 <= k < i ==> #[trigger] out@[k]@ == encode_message_spec(messages@[k]@),
        decreases messages@.len() - i,
    {
        out.push(encode_message(&messages[i]));
        i += 1;
    }
    assert(wire_messages_view(out@) =~= encode_messages_spec(messages_view(messages@)));
    out
}

/// The body of one exchange: the model, the token budget, the system prompt,
/// the tools on offer and the whole conversation.
#[derive(Debug, Clone, PartialEq)]
pub struct ApiRequest {
    pub model: String,
    pub max_tokens: u32,
    pub system: String,
    pub tools: Vec<Tool>,
    pub messages: Vec<ApiMessage>,
}

/// The abstract value of an [`ApiRequest`].
pub struct RequestModel {
    pub model: Seq<char>,
    pub max_tokens: u32,
    pub system: Seq<char>,
    pub tools: Seq<ToolModel>,
    pub messages: Seq<WireMessageModel>,
}

impl View for ApiRequest {
    type V = RequestModel;

    open spec fn view(&self) -> RequestModel {
        RequestModel {
            model: self.model@,
            max_tokens: self.max_tokens,
            system: self.system@,
            tools: tools_view(self.tools@),
            messages: wire_messages_view(self.messages@),
        }
    }
}

/// The request that asks the model to continue `messages`.
pub open spec fn request_spec(
    model: Seq<char>,
    system: Seq<char>,
    tools: Seq<ToolModel>,
    messages: Seq<MessageModel>,
) -> RequestModel {
    RequestModel {
        model,
        max_tokens: MAX_TOKENS,
        system,
        tools,
        messages: encode_messages_spec(messages),
    }
}

/// The request that asks the model to continue `messages`, offering `tools`.
pub fn build_request(model: &str, system_prompt: &str, tools: &[Tool], messages: &[Message]) -> (r:
    ApiRequest)
    ensures
        r@ == request_spec(model@, system_prompt@, tools_view(tools@), messages_view(messages@)),
{
    let mut api_tools: Vec<Tool> = Vec::new();
    let mut i: usize = 0;
    while i < tools.len()
        invariant
            i <= tools@.len(),
            api_tools@.len() == i,
            forall|k: int| 0 <= k < i ==> #[trigger] api_tools@[k]@ == tools@[k]@,
        decreases tools@.len() - i,
    {
        api_tools.push(tools[i].duplicate());
        i += 1;
    }
    assert(tools_view(api_tools@) =~= tools_view(tools@));
    ApiRequest {
        model: model.to_string(),
        max_tokens: MAX_TOKENS,
        system: system_prompt.to_string(),
        tools: api_tools,
        messages: messages_to_api_format(messages),
    }
}

/// Whether an HTTP status is in the success range.
pub open spec fn is_success_status(status: u16) -> bool {
    200 <= status <= 299
}

/// Accepts a status in the success range; any other becomes an API error that
/// carries the status and the body of the answer.
pub fn check_status(status: u16, body: String) -> (r: Result<(), AgentError>)
    ensures
        is_success_status(status) <==> r is Ok,
        !is_success_status(status) ==> (r matches Err(e) && e@ == (ErrorModel::ApiError {
            status,
            body: body@,
        })),
{
    if 200 <= status && status <= 299 {
        Ok(())
    } else {
        Err(AgentError::ApiError { status, body })
    }
}

/// Token accounting of one exchange.
#[derive(Debug, Clone, PartialEq, Eq)]
pub struct Usage {
    pub input_tokens: u32,
    pub output_tokens: u32,
}

/// The body of the backend's answer.
#[derive(Debug, Clone, PartialEq)]
pub struct ApiResponse {
    pub content: Vec<ApiBlock>,
    pub stop_reason: String,
    pub usage: Usage,
}

/// What the model produced in one exchange: its blocks, in order, and why it
/// stopped.
#[derive(Debug, Clone, PartialEq)]
pub struct Reply {
    pub content: Vec<ContentBlock>,
    pub stop_reason: String,
}

/// The abstract value of a [`Reply`].
pub struct ReplyModel {
    pub content: Seq<BlockModel>,
    pub stop_reason: Seq<char>,
}

impl View for Reply {
    type V = ReplyModel;

    open spec fn view(&self) -> ReplyModel {
        ReplyModel { content: blocks_view(self.content@), stop_reason: self.stop_reason@ }
    }
}

/// Whether every item of a response stands for a content block.
pub open spec fn all_decodable(items: Seq<ItemModel>) -> bool {
    forall|k: int| 0 <= k < items.len() ==> (#[trigger] decode_item_spec(items[k])) is Some
}

/// The content blocks of the items of a response, when all are decodable.
pub open spec fn decode_items_spec(items: Seq<ItemModel>) -> Seq<BlockModel> {
    items.map_values(|i: ItemModel| decode_item_spec(i)->0)
}

/// The model's output in a response body, or the parse error that the body
/// gives. `parsed` is the body read as the response shape, or the reason it
/// could not be.
pub fn decode_response(parsed: Result<ApiResponse, String>) -> (r: Result<Reply, AgentError>)
    ensures
        parsed is Err ==> (r matches Err(e) && e@ == ErrorModel::ParseError(parsed->Err_0@)),
        parsed is Ok && all_decodable(items_view(parsed->Ok_0.content@)) ==> (r matches Ok(
            reply,
        ) && reply@ == (ReplyModel {
            content: decode_items_spec(items_view(parsed->Ok_0.content@)),
            stop_reason: parsed->Ok_0.stop_reason@,
        })),
        parsed is Ok && !all_decodable(items_view(parsed->Ok_0.content@)) ==> (r matches Err(e)
            && e@ == ErrorModel::ParseError(misplaced_result_text())),
{
    match parsed {
        Err(m) => Err(AgentError::ParseError(m)),
        Ok(resp) => {
            let mut blocks: Vec<ContentBlock> = Vec::new();
            let mut i: usize = 0;
            while i < resp.content.len()
                invariant
                    parsed == Ok::<ApiResponse, String>(resp),
                    i <= resp.content@.len(),
                    blocks@.len() == i,
                    forall|k: int|
                        0 <= k < i ==> decode_item_spec(#[trigger] resp.content@[k]@) is Some
                            && blocks@[k]@ == decode_item_spec(resp.content@[k]@)->0,
                decreases resp.content@.len() - i,
            {
                match decode_block(&resp.content[i]) {
                    Ok(b) => blocks.push(b),
                    Err(e) => {
                        assert(!all_decodable(items_view(resp.content@))) by {
                            assert(decode_item_spec(items_view(resp.content@)[i as int]) is None);
                        }
                        return Err(e);
                    },
                }
                i += 1;
            }
            assert(all_decodable(items_view(resp.content@))) by {
                assert forall|k: int| 0 <= k < items_view(resp.content@).len() implies (
                #[trigger] decode_item_spec(items_view(resp.content@)[k])) is Some by {
                    assert(decode_item_spec(resp.content@[k]@) is Some);
                }
            }
            assert(blocks_view(blocks@) =~= decode_items_spec(items_view(resp.content@)));
            Ok(Reply { content: blocks, stop_reason: resp.stop_reason })
        },
    }
}

} // verus!
