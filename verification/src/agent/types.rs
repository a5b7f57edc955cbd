//! Message and tool types exchanged with the Anthropic Messages API.
//!
//! Values that the API carries as arbitrary JSON (tool inputs and schemas,
//! document sources) are held here as their JSON text.
use vstd::prelude::*;

verus! {

/// One block of message content.
#[derive(Debug, Clone)]
pub enum ContentBlock {
    Text { text: String },
    /// A tool call requested by the model; `input` is JSON text.
    ToolUse { id: String, name: String, input: String },
    /// The result of a tool call, sent back to the model.
    ToolResult { tool_use_id: String, content: String, is_error: Option<bool> },
    /// A document attached to a message; `source` is JSON text.
    Document { source: String },
}

/// Abstract value of a content block.
pub enum BlockView {
    Text { text: Seq<char> },
    ToolUse { id: Seq<char>, name: Seq<char>, input: Seq<char> },
    ToolResult { tool_use_id: Seq<char>, content: Seq<char>, is_error: Option<bool> },
    Document { source: Seq<char> },
}

impl DeepView for ContentBlock {
    type V = BlockView;

    open spec fn deep_view(&self) -> BlockView {
        match self {
            ContentBlock::Text { text } => BlockView::Text { text: text@ },
            ContentBlock::ToolUse { id, name, input } => BlockView::ToolUse {
                id: id@,
                name: name@,
                input: input@,
            },
            ContentBlock::ToolResult { tool_use_id, content, is_error } => BlockView::ToolResult {
                tool_use_id: tool_use_id@,
                content: content@,
                is_error: *is_error,
            },
            ContentBlock::Document { source } => BlockView::Document { source: source@ },
        }
    }
}

/// A message of the conversation.
#[derive(Debug, Clone)]
pub enum Message {
    User { role: String, content: Vec<ContentBlock> },
    Assistant { role: String, content: Vec<ContentBlock> },
}

/// Abstract value of a message.
pub enum MessageView {
    User { role: Seq<char>, content: Seq<BlockView> },
    Assistant { role: Seq<char>, content: Seq<BlockView> },
}

impl DeepView for Message {
    type V = MessageView;

    open spec fn deep_view(&self) -> MessageView {
        match self {
            Message::User { role, content } => MessageView::User {
                role: role@,
                content: content.deep_view(),
            },
            Message::Assistant { role, content } => MessageView::Assistant {
                role: role@,
                content: content.deep_view(),
            },
        }
    }
}

/// A tool the agent may call; `input_schema` is JSON Schema text.
#[derive(Debug, Clone)]
pub struct Tool {
    pub name: String,
    pub description: String,
    pub input_schema: String,
}

/// A tool as described to the model.
#[derive(Debug, Clone)]
pub struct ToolDefinition {
    pub name: String,
    pub description: String,
    pub input_schema: String,
}

/// Abstract value of a tool or tool definition.
pub struct ToolView {
    pub name: Seq<char>,
    pub description: Seq<char>,
    pub input_schema: Seq<char>,
}

impl DeepView for Tool {
    type V = ToolView;

    open spec fn deep_view(&self) -> ToolView {
        ToolView {
            name: self.name@,
            description: self.description@,
            input_schema: self.input_schema@,
        }
    }
}

impl DeepView for ToolDefinition {
    type V = ToolView;

    open spec fn deep_view(&self) -> ToolView {
        ToolView {
            name: self.name@,
            description: self.description@,
            input_schema: self.input_schema@,
        }
    }
}

/// A tool call the model asked for.
#[derive(Debug, Clone)]
pub struct ToolCallData {
    pub id: String,
    pub name: String,
    /// JSON text of the call's input.
    pub input: String,
}

pub struct CallView {
    pub id: Seq<char>,
    pub name: Seq<char>,
    pub input: Seq<char>,
}

impl DeepView for ToolCallData {
    type V = CallView;

    open spec fn deep_view(&self) -> CallView {
        CallView { id: self.id@, name: self.name@, input: self.input@ }
    }
}

/// The outcome of running a tool, to be reported back to the model.
#[derive(Debug, Clone)]
pub struct ToolResultData {
    pub tool_use_id: String,
    pub content: String,
    pub is_error: bool,
}

/// What one step of a conversation produced.
#[derive(Debug, Clone)]
pub enum AgentResponse {
    /// The model wants tools to run (possibly alongside some text).
    ToolCallRequest {
        text: Option<String>,
        tool_calls: Vec<ToolCallData>,
        stop_reason: Option<String>,
    },
    /// A final text answer.
    TextResponse { text: String, stop_reason: Option<String> },
}

pub enum ResponseView {
    ToolCallRequest {
        text: Option<Seq<char>>,
        tool_calls: Seq<CallView>,
        stop_reason: Option<Seq<char>>,
    },
    TextResponse { text: Seq<char>, stop_reason: Option<Seq<char>> },
}

impl DeepView for AgentResponse {
    type V = ResponseView;

    open spec fn deep_view(&self) -> ResponseView {
        match self {
            AgentResponse::ToolCallRequest { text, tool_calls, stop_reason } =>
                ResponseView::ToolCallRequest {
                text: text.deep_view(),
                tool_calls: tool_calls.deep_view(),
                stop_reason: stop_reason.deep_view(),
            },
            AgentResponse::TextResponse { text, stop_reason } => ResponseView::TextResponse {
                text: text@,
                stop_reason: stop_reason.deep_view(),
            },
        }
    }
}

/// An inline-completion request built from the editor around the cursor.
#[derive(Debug, Clone)]
pub struct InlineCompletionRequest {
    pub request_id: u64,
    /// Text of the current line before the cursor.
    pub prefix: String,
    /// Text of the current line after the cursor.
    pub suffix: String,
    /// Up to ten preceding lines, when the cursor is not on the first line.
    pub context: Option<String>,
}

/// Token usage reported by the API.
#[derive(Debug, Clone, Copy)]
pub struct Usage {
    pub input_tokens: u32,
    pub output_tokens: u32,
}

/// A decoded Messages API response.
#[derive(Debug, Clone)]
pub struct AnthropicResponse {
    pub id: String,
    pub response_type: String,
    pub role: String,
    pub content: Vec<ContentBlock>,
    pub model: String,
    pub stop_reason: Option<String>,
    pub usage: Usage,
}

/// A Messages API request body.
#[derive(Debug, Clone)]
pub struct AnthropicRequest {
    pub model: String,
    pub max_tokens: u32,
    pub messages: Vec<Message>,
    /// Omitted from the body when `None`.
    pub system: Option<String>,
    /// Omitted from the body when `None` (no tools).
    pub tools: Option<Vec<ToolDefinition>>,
}

// ---------------------------------------------------------------------------
// Copies with known contents
// ---------------------------------------------------------------------------

impl ContentBlock {
    pub fn duplicate(&self) -> (r: Self)
        ensures
            r.deep_view() == self.deep_view(),
    {
        match self {
            ContentBlock::Text { text } => ContentBlock::Text { text: text.clone() },
            ContentBlock::ToolUse { id, name, input } => ContentBlock::ToolUse {
                id: id.clone(),
                name: name.clone(),
                input: input.clone(),
            },
            ContentBlock::ToolResult { tool_use_id, content, is_error } =>
                ContentBlock::ToolResult {
                tool_use_id: tool_use_id.clone(),
                content: content.clone(),
                is_error: *is_error,
            },
            ContentBlock::Document { source } => ContentBlock::Document { source: source.clone() },
        }
    }
}

/// A copy of a block list with the same contents.
pub fn duplicate_blocks(v: &Vec<ContentBlock>) -> (r: Vec<ContentBlock>)
    ensures
        r.deep_view() == v.deep_view(),
{
    let mut r: Vec<ContentBlock> = Vec::new();
    let mut i: usize = 0;
    while i < v.len()
        invariant
            0 <= i <= v@.len(),
            r@.len() == i,
            forall|k: int| 0 <= k < i ==> (#[trigger] r@[k]).deep_view() == v@[k].deep_view(),
        decreases v@.len() - i,
    {
        r.push(v[i].duplicate());
        i = i + 1;
    }
    assert(r.deep_view() =~= v.deep_view());
    r
}

impl Message {
    pub fn duplicate(&self) -> (r: Self)
        ensures
            r.deep_view() == self.deep_view(),
    {
        match self {
            Message::User { role, content } => Message::User {
                role: role.clone(),
                content: duplicate_blocks(content),
            },
            Message::Assistant { role, content } => Message::Assistant {
                role: role.clone(),
                content: duplicate_blocks(content),
            },
        }
    }
}

/// A copy of a message list with the same contents.
pub fn duplicate_messages(v: &Vec<Message>) -> (r: Vec<Message>)
    ensures
        r.deep_view() == v.deep_view(),
{
    let mut r: Vec<Message> = Vec::new();
    let mut i: usize = 0;
    while i < v.len()
        invariant
            0 <= i <= v@.len(),
            r@.len() == i,
            forall|k: int| 0 <= k < i ==> (#[trigger] r@[k]).deep_view() == v@[k].deep_view(),
        decreases v@.len() - i,
    {
        r.push(v[i].duplicate());
        i = i + 1;
    }
    assert(r.deep_view() =~= v.deep_view());
    r
}

impl ToolDefinition {
    pub fn duplicate(&self) -> (r: Self)
        ensures
            r.deep_view() == self.deep_view(),
    {
        ToolDefinition {
            name: self.name.clone(),
            description: self.description.clone(),
            input_schema: self.input_schema.clone(),
        }
    }
}

/// A copy of a definition list with the same contents.
pub fn duplicate_definitions(v: &Vec<ToolDefinition>) -> (r: Vec<ToolDefinition>)
    ensures
        r.deep_view() == v.deep_view(),
{
    let mut r: Vec<ToolDefinition> = Vec::new();
    let mut i: usize = 0;
    while i < v.len()
        invariant
            0 <= i <= v@.len(),
            r@.len() == i,
            forall|k: int| 0 <= k < i ==> (#[trigger] r@[k]).deep_view() == v@[k].deep_view(),
        decreases v@.len() - i,
    {
        r.push(v[i].duplicate());
        i = i + 1;
    }
    assert(r.deep_view() =~= v.deep_view());
    r
}

impl Tool {
    pub fn duplicate(&self) -> (r: Self)
        ensures
            r.deep_view() == self.deep_view(),
    {
        Tool {
            name: self.name.clone(),
            description: self.description.clone(),
            input_schema: self.input_schema.clone(),
        }
    }
}

/// A copy of a tool list with the same contents.
pub fn duplicate_tools(v: &Vec<Tool>) -> (r: Vec<Tool>)
    ensures
        r.deep_view() == v.deep_view(),
{
    let mut r: Vec<Tool> = Vec::new();
    let mut i: usize = 0;
    while i < v.len()
        invariant
            0 <= i <= v@.len(),
            r@.len() == i,
            forall|k: int| 0 <= k < i ==> (#[trigger] r@[k]).deep_view() == v@[k].deep_view(),
        decreases v@.len() - i,
    {
        r.push(v[i].duplicate());
        i = i + 1;
    }
    assert(r.deep_view() =~= v.deep_view());
    r
}

} // verus!
