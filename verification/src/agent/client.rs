//! The agent: its configuration, its conversation and the decisions taken
//! around each inference request. Sending a request over HTTP and decoding
//! the JSON reply happen outside; this module decides what is sent, how the
//! reply is read and how the conversation changes.
use vstd::prelude::*;
use crate::agent::types::{
    AgentResponse, AnthropicRequest, AnthropicResponse, BlockView, CallView, ContentBlock,
    Message, MessageView, ResponseView, Tool, ToolCallData, ToolDefinition, ToolResultData,
    ToolView, duplicate_definitions, duplicate_messages, duplicate_tools,
};
use crate::text::{contains, owned};

verus! {

/// Token budget used unless configured otherwise.
pub const DEFAULT_MAX_TOKENS: u32 = 4096;

/// The default system prompt.
pub const DEFAULT_SYSTEM_PROMPT: &'static str =
    "You are a helpful AI assistant with access to tools that can help you complete tasks. When you need to use a tool, respond with the appropriate tool call. Be concise and helpful in your responses.";

/// Errors of the agent.
#[derive(Debug, Clone)]
pub enum AgentError {
    /// No API key was configured and none is in the environment.
    MissingApiKey,
    /// A conversation step got neither text nor tool calls back.
    EmptyAssistantResponse,
    /// A stateless request got neither text nor tool calls back.
    EmptyStatelessResponse,
    /// The request could not be made or its reply not read.
    Request { message: String },
}

impl AgentError {
    pub fn message(&self) -> (m: String)
        ensures
            match self {
                AgentError::MissingApiKey => m@
                    == "ANTHROPIC_API_KEY environment variable not set"@,
                AgentError::EmptyAssistantResponse => m@
                    == "No text or tool calls in assistant response"@,
                AgentError::EmptyStatelessResponse => m@
                    == "No text or tool calls in stateless response"@,
                AgentError::Request { message } => m@ == message@,
            },
    {
        match self {
            AgentError::MissingApiKey => owned("ANTHROPIC_API_KEY environment variable not set"),
            AgentError::EmptyAssistantResponse => owned(
                "No text or tool calls in assistant response",
            ),
            AgentError::EmptyStatelessResponse => owned(
                "No text or tool calls in stateless response",
            ),
            AgentError::Request { message } => message.clone(),
        }
    }
}

// ---------------------------------------------------------------------------
// Agent state
// ---------------------------------------------------------------------------

/// Agent that can converse with an LLM and request tool calls.
#[derive(Debug, Clone)]
pub struct Agent {
    api_key: String,
    model: String,
    system_prompt: String,
    tools: Vec<Tool>,
    conversation: Vec<Message>,
    max_tokens: u32,
}

/// Abstract state of an agent.
pub struct AgentView {
    pub api_key: Seq<char>,
    pub model: Seq<char>,
    pub system_prompt: Seq<char>,
    pub tools: Seq<ToolView>,
    pub conversation: Seq<MessageView>,
    pub max_tokens: u32,
}

impl View for Agent {
    type V = AgentView;

    closed spec fn view(&self) -> AgentView {
        AgentView {
            api_key: self.api_key@,
            model: self.model@,
            system_prompt: self.system_prompt@,
            tools: self.tools.deep_view(),
            conversation: self.conversation.deep_view(),
            max_tokens: self.max_tokens,
        }
    }
}

/// The state needed to run one inference request.
#[derive(Debug, Clone)]
pub struct AgentForInference {
    pub api_key: String,
    pub model: String,
    pub system_prompt: String,
    pub tool_definitions: Vec<ToolDefinition>,
    pub conversation: Vec<Message>,
    pub max_tokens: u32,
}

/// A user message holding the given content.
pub open spec fn user_message(content: Seq<BlockView>) -> MessageView {
    MessageView::User { role: "user"@, content }
}

/// An assistant message holding the given content.
pub open spec fn assistant_message(content: Seq<BlockView>) -> MessageView {
    MessageView::Assistant { role: "assistant"@, content }
}

/// The agent with a different conversation.
pub open spec fn with_conversation(v: AgentView, c: Seq<MessageView>) -> AgentView {
    AgentView {
        api_key: v.api_key,
        model: v.model,
        system_prompt: v.system_prompt,
        tools: v.tools,
        conversation: c,
        max_tokens: v.max_tokens,
    }
}

/// Starting a chat step records the user's turn.
pub open spec fn begin_step(v: AgentView, content: Seq<BlockView>) -> AgentView {
    with_conversation(v, v.conversation.push(user_message(content)))
}

/// A failed chat step takes the user's turn back out.
pub open spec fn fail_step(v: AgentView) -> AgentView {
    with_conversation(
        v,
        if v.conversation.len() > 0 {
            v.conversation.drop_last()
        } else {
            v.conversation
        },
    )
}

/// A successful chat step records the assistant's reply.
pub open spec fn complete_step(v: AgentView, reply: Seq<BlockView>) -> AgentView {
    with_conversation(v, v.conversation.push(assistant_message(reply)))
}

/// `inf` carries the agent's configuration, the definitions of its tools and
/// the given conversation.
pub open spec fn inference_for(
    inf: AgentForInference,
    v: AgentView,
    conversation: Seq<MessageView>,
) -> bool {
    &&& inf.api_key@ == v.api_key
    &&& inf.model@ == v.model
    &&& inf.system_prompt@ == v.system_prompt
    &&& inf.tool_definitions.deep_view() == v.tools
    &&& inf.conversation.deep_view() == conversation
    &&& inf.max_tokens == v.max_tokens
}

// ---------------------------------------------------------------------------
// Reading a reply
// ---------------------------------------------------------------------------

/// The text of the last text block (empty when there is none).
pub open spec fn last_text(s: Seq<BlockView>) -> Seq<char>
    decreases s.len(),
{
    if s.len() == 0 {
        Seq::empty()
    } else {
        match s.last() {
            BlockView::Text { text } => text,
            _ => last_text(s.drop_last()),
        }
    }
}

/// The tool calls among the blocks, in order.
pub open spec fn tool_calls_in(s: Seq<BlockView>) -> Seq<CallView>
    decreases s.len(),
{
    if s.len() == 0 {
        Seq::empty()
    } else {
        let rest = tool_calls_in(s.drop_last());
        match s.last() {
            BlockView::ToolUse { id, name, input } => rest.push(CallView { id, name, input }),
            _ => rest,
        }
    }
}

/// Tool calls are read block by block: those of two runs of blocks are the
/// first run's calls followed by the second's; a tool-use block yields
/// exactly its call, and any other block none. The text read is that of the
/// last text block: blocks after it that hold no text leave it unchanged.
pub proof fn lemma_reply_read_block_by_block(a: Seq<BlockView>, b: Seq<BlockView>)
    ensures
        tool_calls_in(a + b) == tool_calls_in(a) + tool_calls_in(b),
        forall|id: Seq<char>, name: Seq<char>, input: Seq<char>|
            #[trigger] tool_calls_in(seq![BlockView::ToolUse { id, name, input }]) == seq![
                CallView { id, name, input },
            ],
        forall|t: Seq<char>| #[trigger] tool_calls_in(seq![BlockView::Text { text: t }]).len() == 0,
        forall|t: Seq<char>| #[trigger] last_text(a.push(BlockView::Text { text: t })) == t,
        (forall|i: int| 0 <= i < b.len() ==> !(#[trigger] b[i] is Text)) ==> last_text(a + b)
            == last_text(a),
    decreases b.len(),
{
    if b.len() == 0 {
        assert(a + b =~= a);
        assert(tool_calls_in(a) + tool_calls_in(b) =~= tool_calls_in(a));
    } else {
        lemma_reply_read_block_by_block(a, b.drop_last());
        assert((a + b).drop_last() =~= a + b.drop_last());
        assert((a + b).last() == b.last());
        if b.last() is ToolUse {
            assert(tool_calls_in(a) + tool_calls_in(b) =~= (tool_calls_in(a) + tool_calls_in(
                b.drop_last(),
            )).push(CallView {
                id: b.last()->ToolUse_id,
                name: b.last()->ToolUse_name,
                input: b.last()->ToolUse_input,
            }));
        } else {
            assert(tool_calls_in(b) == tool_calls_in(b.drop_last()));
        }
        if forall|i: int| 0 <= i < b.len() ==> !(#[trigger] b[i] is Text) {
            assert forall|i: int| 0 <= i < b.drop_last().len() implies !(#[trigger] b.drop_last()[i] is Text) by {
                assert(b.drop_last()[i] == b[i]);
            }
            assert(!(b[b.len() - 1] is Text));
        }
    }
    assert forall|id: Seq<char>, name: Seq<char>, input: Seq<char>|
        #[trigger] tool_calls_in(seq![BlockView::ToolUse { id, name, input }]) == seq![
            CallView { id, name, input },
        ] by {
        let s = seq![BlockView::ToolUse { id, name, input }];
        assert(s.drop_last() =~= Seq::<BlockView>::empty());
        assert(s.last() == BlockView::ToolUse { id, name, input });
        assert(tool_calls_in(s.drop_last()).len() == 0);
        assert(tool_calls_in(s) =~= seq![CallView { id, name, input }]);
    }
    assert forall|t: Seq<char>| #[trigger] tool_calls_in(seq![BlockView::Text { text: t }]).len() == 0 by {
        let s = seq![BlockView::Text { text: t }];
        assert(s.drop_last() =~= Seq::<BlockView>::empty());
        assert(s.last() == BlockView::Text { text: t });
        assert(tool_calls_in(s.drop_last()).len() == 0);
    }
}

/// How a reply is read: tool calls (with the last text, if non-empty) when
/// the model asked for any; otherwise the last text when non-empty;
/// otherwise an error.
pub open spec fn reply_reading(
    blocks: Seq<BlockView>,
    stop_reason: Option<Seq<char>>,
    stateless: bool,
    r: Result<AgentResponse, AgentError>,
) -> bool {
    let text = last_text(blocks);
    let calls = tool_calls_in(blocks);
    if calls.len() > 0 {
        r matches Ok(resp) && resp.deep_view() == ResponseView::ToolCallRequest {
            text: if text.len() == 0 {
                None
            } else {
                Some(text)
            },
            tool_calls: calls,
            stop_reason,
        }
    } else if text.len() > 0 {
        r matches Ok(resp) && resp.deep_view() == ResponseView::TextResponse {
            text,
            stop_reason,
        }
    } else if stateless {
        r matches Err(e) && e is EmptyStatelessResponse
    } else {
        r matches Err(e) && e is EmptyAssistantResponse
    }
}

/// Reads a reply's content into tool-call requests or a text answer.
pub fn interpret_response(
    content: &Vec<ContentBlock>,
    stop_reason: Option<String>,
    stateless: bool,
) -> (r: Result<AgentResponse, AgentError>)
    ensures
        reply_reading(content.deep_view(), stop_reason.deep_view(), stateless, r),
{
    let ghost blocks = content.deep_view();
    let mut tool_calls: Vec<ToolCallData> = Vec::new();
    let mut text_response = String::new();
    let n = content.len();
    let mut i: usize = 0;
    while i < n
        invariant
            n == content@.len(),
            blocks == content.deep_view(),
            0 <= i <= n,
            text_response@ == last_text(blocks.take(i as int)),
            tool_calls.deep_view() == tool_calls_in(blocks.take(i as int)),
        decreases n - i,
    {
        assert(blocks.take(i + 1).drop_last() =~= blocks.take(i as int));
        assert(blocks.take(i + 1).last() == content@[i as int].deep_view());
        match &content[i] {
            ContentBlock::Text { text } => {
                text_response = text.clone();
            },
            ContentBlock::ToolUse { id, name, input } => {
                let ghost before = tool_calls.deep_view();
                tool_calls.push(
                    ToolCallData { id: id.clone(), name: name.clone(), input: input.clone() },
                );
                assert(tool_calls.deep_view() =~= before.push(
                    CallView { id: id@, name: name@, input: input@ },
                ));
            },
            ContentBlock::ToolResult { .. } => {},
            ContentBlock::Document { .. } => {},
        }
        i = i + 1;
    }
    assert(blocks.take(n as int) =~= blocks);
    if tool_calls.len() > 0 {
        let text = if text_response.as_str().is_empty() {
            None
        } else {
            Some(text_response)
        };
        return Ok(AgentResponse::ToolCallRequest { text, tool_calls, stop_reason });
    }
    if !text_response.as_str().is_empty() {
        return Ok(AgentResponse::TextResponse { text: text_response, stop_reason });
    }
    if stateless {
        Err(AgentError::EmptyStatelessResponse)
    } else {
        Err(AgentError::EmptyAssistantResponse)
    }
}

/// Whether the raw reply text is an API error object.
pub fn is_api_error(response_text: &str) -> (b: bool)
    ensures
        b == (crate::text::has_substring(response_text@, "\"error\""@)
            && crate::text::has_substring(response_text@, "\"type\""@)),
{
    contains(response_text, "\"error\"") && contains(response_text, "\"type\"")
}

// ---------------------------------------------------------------------------
// Agent operations
// ---------------------------------------------------------------------------

fn user_text_blocks(content: String) -> (v: Vec<ContentBlock>)
    ensures
        v.deep_view() == seq![BlockView::Text { text: content@ }],
{
    let mut v = Vec::new();
    v.push(ContentBlock::Text { text: content });
    assert(v.deep_view() =~= seq![BlockView::Text { text: content@ }]);
    v
}

impl Agent {
    /// A new agent with the given tools and model, the default prompt and
    /// token budget. `env_api_key` is the value of `ANTHROPIC_API_KEY`, if
    /// set; `model` is the model identifier the application is configured
    /// with.
    pub fn new(tools: Vec<Tool>, env_api_key: Option<String>, model: String) -> (r: Result<
        Agent,
        AgentError,
    >)
        ensures
            match env_api_key {
                None => r matches Err(e) && e is MissingApiKey,
                Some(k) => r matches Ok(a) && a@.api_key == k@ && a@.model == model@
                    && a@.system_prompt == DEFAULT_SYSTEM_PROMPT@ && a@.tools == tools.deep_view()
                    && a@.conversation == Seq::<MessageView>::empty() && a@.max_tokens == 4096,
            },
    {
        let api_key = match env_api_key {
            Some(k) => k,
            None => return Err(AgentError::MissingApiKey),
        };
        let a = Agent {
            api_key,
            model,
            system_prompt: Self::default_system_prompt(),
            tools,
            conversation: Vec::new(),
            max_tokens: DEFAULT_MAX_TOKENS,
        };
        assert(a.conversation.deep_view() =~= Seq::<MessageView>::empty());
        Ok(a)
    }

    /// A builder with the default configuration.
    pub fn builder() -> (b: AgentBuilder)
        ensures
            b@ == default_builder(),
    {
        AgentBuilder::default()
    }

    /// The default system prompt.
    pub fn default_system_prompt() -> (s: String)
        ensures
            s@ == DEFAULT_SYSTEM_PROMPT@,
    {
        owned(DEFAULT_SYSTEM_PROMPT)
    }

    pub fn set_system_prompt(&mut self, prompt: String)
        ensures
            final(self)@ == (AgentView { system_prompt: prompt@, ..old(self)@ }),
    {
        self.system_prompt = prompt;
    }

    pub fn set_model(&mut self, model: String)
        ensures
            final(self)@ == (AgentView { model: model@, ..old(self)@ }),
    {
        self.model = model;
    }

    pub fn set_max_tokens(&mut self, max_tokens: u32)
        ensures
            final(self)@ == (AgentView { max_tokens, ..old(self)@ }),
    {
        self.max_tokens = max_tokens;
    }

    /// Appends a user message holding one text block.
    pub fn add_user_message(&mut self, content: String)
        ensures
            final(self)@ == with_conversation(
                old(self)@,
                old(self)@.conversation.push(
                    user_message(seq![BlockView::Text { text: content@ }]),
                ),
            ),
    {
        let ghost before = self.conversation.deep_view();
        let blocks = user_text_blocks(content);
        self.conversation.push(Message::User { role: owned("user"), content: blocks });
        assert(self.conversation.deep_view() =~= before.push(
            user_message(seq![BlockView::Text { text: content@ }]),
        ));
    }

    /// Appends an assistant message.
    fn add_assistant_message(&mut self, content: Vec<ContentBlock>)
        ensures
            final(self)@ == complete_step(old(self)@, content.deep_view()),
    {
        let ghost before = self.conversation.deep_view();
        let ghost c = content.deep_view();
        self.conversation.push(Message::Assistant { role: owned("assistant"), content });
        assert(self.conversation.deep_view() =~= before.push(assistant_message(c)));
    }

    /// Definitions of the agent's tools, as described to the model.
    pub fn get_tool_definitions(&self) -> (v: Vec<ToolDefinition>)
        ensures
            v.deep_view() == self@.tools,
    {
        let mut v: Vec<ToolDefinition> = Vec::new();
        let n = self.tools.len();
        let mut i: usize = 0;
        while i < n
            invariant
                n == self.tools@.len(),
                0 <= i <= n,
                v@.len() == i,
                forall|k: int|
                    0 <= k < i ==> (#[trigger] v@[k]).deep_view() == self.tools@[k].deep_view(),
            decreases n - i,
        {
            let t = &self.tools[i];
            v.push(
                ToolDefinition {
                    name: t.name.clone(),
                    description: t.description.clone(),
                    input_schema: t.input_schema.clone(),
                },
            );
            i = i + 1;
        }
        assert(v.deep_view() =~= self.tools.deep_view());
        v
    }

    /// Starts a conversation step: records the user's content and returns
    /// the state to run inference on.
    pub fn begin_chat_step(&mut self, user_content: Vec<ContentBlock>) -> (inf: AgentForInference)
        ensures
            final(self)@ == begin_step(old(self)@, user_content.deep_view()),
            inference_for(inf, final(self)@, final(self)@.conversation),
    {
        let ghost before = self.conversation.deep_view();
        let ghost c = user_content.deep_view();
        self.conversation.push(Message::User { role: owned("user"), content: user_content });
        assert(self.conversation.deep_view() =~= before.push(user_message(c)));
        self.clone_for_inference()
    }

    /// Completes a conversation step with the outcome of its inference
    /// request. A failed request takes the user's turn back out; a reply is
    /// recorded and read.
    pub fn finish_chat_step(&mut self, outcome: Result<AnthropicResponse, AgentError>) -> (r: Result<
        AgentResponse,
        AgentError,
    >)
        ensures
            match outcome {
                Err(e) => final(self)@ == fail_step(old(self)@) && r == Err::<
                    AgentResponse,
                    AgentError,
                >(e),
                Ok(resp) => final(self)@ == complete_step(old(self)@, resp.content.deep_view())
                    && reply_reading(
                    resp.content.deep_view(),
                    resp.stop_reason.deep_view(),
                    false,
                    r,
                ),
            },
    {
        match outcome {
            Err(e) => {
                let ghost before = self.conversation.deep_view();
                let _ = self.conversation.pop();
                assert(self.conversation.deep_view() =~= (if before.len() > 0 {
                    before.drop_last()
                } else {
                    before
                }));
                Err(e)
            },
            Ok(response) => {
                let content = response.content;
                let r = interpret_response(&content, response.stop_reason, false);
                self.add_assistant_message(content);
                r
            },
        }
    }

    /// The state for a one-off request: the agent's configuration and a
    /// conversation of just the given user content. The agent is unchanged.
    pub fn stateless_inference(&self, user_content: Vec<ContentBlock>) -> (inf: AgentForInference)
        ensures
            inference_for(inf, self@, seq![user_message(user_content.deep_view())]),
    {
        let ghost c = user_content.deep_view();
        let mut conversation = Vec::new();
        conversation.push(Message::User { role: owned("user"), content: user_content });
        assert(conversation.deep_view() =~= seq![user_message(c)]);
        AgentForInference {
            api_key: self.api_key.clone(),
            model: self.model.clone(),
            system_prompt: self.system_prompt.clone(),
            tool_definitions: self.get_tool_definitions(),
            conversation,
            max_tokens: self.max_tokens,
        }
    }

    /// Reports tool results back: one user message with a result block per
    /// result, in order.
    pub fn submit_tool_results(&mut self, results: Vec<ToolResultData>)
        ensures
            final(self)@ == with_conversation(
                old(self)@,
                old(self)@.conversation.push(
                    user_message(
                        Seq::new(
                            results@.len(),
                            |i: int|
                                BlockView::ToolResult {
                                    tool_use_id: results@[i].tool_use_id@,
                                    content: results@[i].content@,
                                    is_error: Some(results@[i].is_error),
                                },
                        ),
                    ),
                ),
            ),
    {
        let ghost before = self.conversation.deep_view();
        let ghost expected = Seq::new(
            results@.len(),
            |i: int|
                BlockView::ToolResult {
                    tool_use_id: results@[i].tool_use_id@,
                    content: results@[i].content@,
                    is_error: Some(results@[i].is_error),
                },
        );
        let mut blocks: Vec<ContentBlock> = Vec::new();
        let n = results.len();
        let mut i: usize = 0;
        while i < n
            invariant
                n == results@.len(),
                0 <= i <= n,
                blocks@.len() == i,
                expected == Seq::new(
                    results@.len(),
                    |j: int|
                        BlockView::ToolResult {
                            tool_use_id: results@[j].tool_use_id@,
                            content: results@[j].content@,
                            is_error: Some(results@[j].is_error),
                        },
                ),
                forall|k: int| 0 <= k < i ==> (#[trigger] blocks@[k]).deep_view() == expected[k],
            decreases n - i,
        {
            let r = &results[i];
            blocks.push(
                ContentBlock::ToolResult {
                    tool_use_id: r.tool_use_id.clone(),
                    content: r.content.clone(),
                    is_error: Some(r.is_error),
                },
            );
            i = i + 1;
        }
        assert(blocks.deep_view() =~= expected);
        self.conversation.push(Message::User { role: owned("user"), content: blocks });
        assert(self.conversation.deep_view() =~= before.push(user_message(expected)));
    }

    /// The state needed for inference: configuration, tool definitions and
    /// the current conversation.
    pub fn clone_for_inference(&self) -> (inf: AgentForInference)
        ensures
            inference_for(inf, self@, self@.conversation),
    {
        AgentForInference {
            api_key: self.api_key.clone(),
            model: self.model.clone(),
            system_prompt: self.system_prompt.clone(),
            tool_definitions: self.get_tool_definitions(),
            conversation: duplicate_messages(&self.conversation),
            max_tokens: self.max_tokens,
        }
    }

    /// The conversation so far.
    pub fn get_conversation(&self) -> (c: &[Message])
        ensures
            c.deep_view() == self@.conversation,
    {
        self.conversation.as_slice()
    }

    /// A copy of the agent: same configuration, tools and conversation.
    pub fn duplicate(&self) -> (r: Agent)
        ensures
            r@ == self@,
    {
        Agent {
            api_key: self.api_key.clone(),
            model: self.model.clone(),
            system_prompt: self.system_prompt.clone(),
            tools: duplicate_tools(&self.tools),
            conversation: duplicate_messages(&self.conversation),
            max_tokens: self.max_tokens,
        }
    }

    /// Forgets the conversation; the configuration stays.
    pub fn clear_conversation(&mut self)
        ensures
            final(self)@ == with_conversation(old(self)@, Seq::empty()),
    {
        self.conversation.clear();
        assert(self.conversation.deep_view() =~= Seq::<MessageView>::empty());
    }
}

/// Starting a step and then failing it leaves the agent as it was.
pub proof fn lemma_failed_step_restores(v: AgentView, content: Seq<BlockView>)
    ensures
        fail_step(begin_step(v, content)) == v,
{
    assert(v.conversation.push(user_message(content)).drop_last() =~= v.conversation);
}

/// A successful step adds exactly the user's turn and the reply, in that
/// order, and keeps the configuration.
pub proof fn lemma_step_appends_turns(
    v: AgentView,
    content: Seq<BlockView>,
    reply: Seq<BlockView>,
)
    ensures
        complete_step(begin_step(v, content), reply).conversation == v.conversation + seq![
            user_message(content),
            assistant_message(reply),
        ],
        complete_step(begin_step(v, content), reply).model == v.model,
        complete_step(begin_step(v, content), reply).tools == v.tools,
{
    assert(complete_step(begin_step(v, content), reply).conversation =~= v.conversation + seq![
        user_message(content),
        assistant_message(reply),
    ]);
}

impl AgentForInference {
    /// The request body for this state: the system prompt is always sent;
    /// tools only when there are any.
    pub fn build_request(&self) -> (req: AnthropicRequest)
        ensures
            req.model@ == self.model@,
            req.max_tokens == self.max_tokens,
            req.messages.deep_view() == self.conversation.deep_view(),
            req.system matches Some(s) && s@ == self.system_prompt@,
            self.tool_definitions@.len() == 0 ==> req.tools is None,
            self.tool_definitions@.len() > 0 ==> (req.tools matches Some(t) && t.deep_view()
                == self.tool_definitions.deep_view()),
    {
        let tools = if self.tool_definitions.len() == 0 {
            None
        } else {
            Some(duplicate_definitions(&self.tool_definitions))
        };
        AnthropicRequest {
            model: self.model.clone(),
            max_tokens: self.max_tokens,
            messages: duplicate_messages(&self.conversation),
            system: Some(self.system_prompt.clone()),
            tools,
        }
    }

    /// The API key to send with the request.
    pub fn api_key(&self) -> (k: &str)
        ensures
            k@ == self.api_key@,
    {
        self.api_key.as_str()
    }
}

// ---------------------------------------------------------------------------
// Builder
// ---------------------------------------------------------------------------

/// Builder for agents with custom configuration.
#[derive(Debug, Clone)]
pub struct AgentBuilder {
    api_key: Option<String>,
    model: String,
    system_prompt: String,
    max_tokens: u32,
}

pub struct BuilderView {
    pub api_key: Option<Seq<char>>,
    pub model: Seq<char>,
    pub system_prompt: Seq<char>,
    pub max_tokens: u32,
}

impl View for AgentBuilder {
    type V = BuilderView;

    closed spec fn view(&self) -> BuilderView {
        BuilderView {
            api_key: self.api_key.deep_view(),
            model: self.model@,
            system_prompt: self.system_prompt@,
            max_tokens: self.max_tokens,
        }
    }
}

/// The configuration a fresh builder starts from.
pub open spec fn default_builder() -> BuilderView {
    BuilderView {
        api_key: None,
        model: Seq::empty(),
        system_prompt: DEFAULT_SYSTEM_PROMPT@,
        max_tokens: 4096,
    }
}

impl Default for AgentBuilder {
    fn default() -> (b: Self)
        ensures
            b@ == default_builder(),
    {
        AgentBuilder {
            api_key: None,
            model: String::new(),
            system_prompt: Agent::default_system_prompt(),
            max_tokens: DEFAULT_MAX_TOKENS,
        }
    }
}

impl AgentBuilder {
    pub fn api_key(self, api_key: String) -> (b: Self)
        ensures
            b@ == (BuilderView { api_key: Some(api_key@), ..self@ }),
    {
        AgentBuilder { api_key: Some(api_key), ..self }
    }

    pub fn model(self, model: String) -> (b: Self)
        ensures
            b@ == (BuilderView { model: model@, ..self@ }),
    {
        AgentBuilder { model, ..self }
    }

    pub fn system_prompt(self, prompt: String) -> (b: Self)
        ensures
            b@ == (BuilderView { system_prompt: prompt@, ..self@ }),
    {
        AgentBuilder { system_prompt: prompt, ..self }
    }

    pub fn max_tokens(self, max_tokens: u32) -> (b: Self)
        ensures
            b@ == (BuilderView { max_tokens, ..self@ }),
    {
        AgentBuilder { max_tokens, ..self }
    }

    /// The agent with this configuration and the given tools. The key set
    /// on the builder wins; otherwise `env_api_key` (the value of
    /// `ANTHROPIC_API_KEY`, if set) is used; with neither, building fails.
    pub fn build(self, tools: Vec<Tool>, env_api_key: Option<String>) -> (r: Result<
        Agent,
        AgentError,
    >)
        ensures
            match (self@.api_key, env_api_key) {
                (None, None) => r matches Err(e) && e is MissingApiKey,
                (Some(k), _) => r matches Ok(a) && a@.api_key == k && agent_built(a@, self@, tools),
                (None, Some(k)) => r matches Ok(a) && a@.api_key == k@ && agent_built(
                    a@,
                    self@,
                    tools,
                ),
            },
    {
        let api_key = match self.api_key {
            Some(key) => key,
            None => match env_api_key {
                Some(key) => key,
                None => return Err(AgentError::MissingApiKey),
            },
        };
        let a = Agent {
            api_key,
            model: self.model,
            system_prompt: self.system_prompt,
            tools,
            conversation: Vec::new(),
            max_tokens: self.max_tokens,
        };
        assert(a.conversation.deep_view() =~= Seq::<MessageView>::empty());
        Ok(a)
    }
}

/// An agent built from a builder's configuration, with the given tools and
/// an empty conversation.
pub open spec fn agent_built(a: AgentView, b: BuilderView, tools: Vec<Tool>) -> bool {
    &&& a.model == b.model
    &&& a.system_prompt == b.system_prompt
    &&& a.max_tokens == b.max_tokens
    &&& a.tools == tools.deep_view()
    &&& a.conversation == Seq::<MessageView>::empty()
}

// ---------------------------------------------------------------------------
// Database tools offered to the model
// ---------------------------------------------------------------------------

/// Description of the `get_schema` tool.
pub const GET_SCHEMA_DESCRIPTION: &'static str =
    "Get the database schema formatted as markdown. When filter_tables is provided, returns schema for only those specific tables. When filter_tables is omitted or empty, returns the complete schema for all tables.";

/// Input schema of the `get_schema` tool.
pub const GET_SCHEMA_INPUT: &'static str =
    "{\"properties\":{\"filter_tables\":{\"description\":\"Optional list of table names to filter the schema. If not provided or empty, returns schema for all tables.\",\"items\":{\"type\":\"string\"},\"type\":\"array\"}},\"required\":[],\"type\":\"object\"}";

/// Description of the `get_tables` tool.
pub const GET_TABLES_DESCRIPTION: &'static str =
    "Get a list of all tables in the database with their schema and type. Returns table_name, table_schema, and table_type for each table.";

/// Input schema of the `get_tables` tool.
pub const GET_TABLES_INPUT: &'static str = "{\"properties\":{},\"required\":[],\"type\":\"object\"}";

/// Description of the `get_table_columns` tool.
pub const GET_TABLE_COLUMNS_DESCRIPTION: &'static str =
    "Get detailed column information for a specific table. Returns column_name, data_type, is_nullable, column_default, and ordinal_position.";

/// Input schema of the `get_table_columns` tool.
pub const GET_TABLE_COLUMNS_INPUT: &'static str =
    "{\"properties\":{\"table_name\":{\"description\":\"The name of the table to get columns for\",\"type\":\"string\"},\"table_schema\":{\"default\":\"public\",\"description\":\"The schema the table belongs to (e.g., 'public')\",\"type\":\"string\"}},\"required\":[\"table_name\"],\"type\":\"object\"}";

/// Tool: the database schema formatted as markdown. With `filter_tables`,
/// only those tables; without it (or empty), all tables.
pub fn create_get_schema_tool() -> (t: Tool)
    ensures
        t.name@ == "get_schema"@,
        t.description@ == GET_SCHEMA_DESCRIPTION@,
        t.input_schema@ == GET_SCHEMA_INPUT@,
{
    Tool {
        name: owned("get_schema"),
        description: owned(GET_SCHEMA_DESCRIPTION),
        input_schema: owned(GET_SCHEMA_INPUT),
    }
}

/// Tool: the list of all tables.
pub fn create_get_tables_tool() -> (t: Tool)
    ensures
        t.name@ == "get_tables"@,
        t.description@ == GET_TABLES_DESCRIPTION@,
        t.input_schema@ == GET_TABLES_INPUT@,
{
    Tool {
        name: owned("get_tables"),
        description: owned(GET_TABLES_DESCRIPTION),
        input_schema: owned(GET_TABLES_INPUT),
    }
}

/// Tool: the columns of one table.
pub fn create_get_table_columns_tool() -> (t: Tool)
    ensures
        t.name@ == "get_table_columns"@,
        t.description@ == GET_TABLE_COLUMNS_DESCRIPTION@,
        t.input_schema@ == GET_TABLE_COLUMNS_INPUT@,
{
    Tool {
        name: owned("get_table_columns"),
        description: owned(GET_TABLE_COLUMNS_DESCRIPTION),
        input_schema: owned(GET_TABLE_COLUMNS_INPUT),
    }
}

} // verus!
