//! Messages, requests, responses and model descriptions.

use crate::json;
use crate::json::{Json, JsonObject, Real};
use crate::str_map::StrMap;
use crate::text;
use vstd::prelude::*;

verus! {

/// A 64-bit floating-point number, carried as its bits.
#[derive(Debug, Clone, Copy, PartialEq, Eq, Structural)]
pub struct Float64 {
    pub bits: u64,
}

/// Role of a chat message sender.
#[derive(Debug, Clone, Copy, PartialEq, Eq, Structural)]
pub enum MessageRole {
    System,
    User,
    Assistant,
    Function,
    Tool,
}

/// A code interpreter call.
#[derive(Debug, Clone, PartialEq)]
pub struct CodeInterpreterCall {
    pub code: String,
    pub stdin: Option<String>,
}

/// A retrieval call.
#[derive(Debug, Clone, PartialEq)]
pub struct RetrievalCall {
    pub query: String,
    pub max_results: Option<u32>,
}

/// A call of a function that the request defined.
#[derive(Debug, Clone, PartialEq)]
pub struct CustomFunctionCall {
    pub id: Option<String>,
    pub name: String,
    pub arguments: String,
}

/// A function call requested by the model.
#[derive(Debug, Clone, PartialEq)]
pub enum FunctionCall {
    Code(CodeInterpreterCall),
    Retrieval(RetrievalCall),
    Custom(CustomFunctionCall),
}

/// A tool call from the model.
#[derive(Debug, Clone, PartialEq)]
pub enum ToolCall {
    Function(FunctionCall),
}

/// A tool call, mathematically.
pub enum CallView {
    Code { code: Seq<char>, stdin: Option<Seq<char>> },
    Retrieval { query: Seq<char>, max_results: Option<u32> },
    Custom { id: Option<Seq<char>>, name: Seq<char>, arguments: Seq<char> },
}

impl View for FunctionCall {
    type V = CallView;

    open spec fn view(&self) -> CallView {
        match *self {
            FunctionCall::Code(c) => CallView::Code {
                code: c.code@,
                stdin: text::opt_text(c.stdin),
            },
            FunctionCall::Retrieval(c) => CallView::Retrieval {
                query: c.query@,
                max_results: c.max_results,
            },
            FunctionCall::Custom(c) => CallView::Custom {
                id: text::opt_text(c.id),
                name: c.name@,
                arguments: c.arguments@,
            },
        }
    }
}

impl View for ToolCall {
    type V = CallView;

    open spec fn view(&self) -> CallView {
        match *self {
            ToolCall::Function(f) => f@,
        }
    }
}

/// The views of some tool calls.
pub open spec fn calls_view(calls: Seq<ToolCall>) -> Seq<CallView> {
    calls.map_values(|c: ToolCall| c@)
}

/// The views of an optional list of tool calls.
pub open spec fn opt_calls_view(calls: Option<Vec<ToolCall>>) -> Option<Seq<CallView>> {
    match calls {
        Some(v) => Some(calls_view(v@)),
        None => None,
    }
}

/// The tool call for a function that the request defined.
pub fn custom_call(id: Option<String>, name: String, arguments: String) -> (r: ToolCall)
    ensures
        r@ == (CallView::Custom { id: text::opt_text(id), name: name@, arguments: arguments@ }),
{
    ToolCall::Function(FunctionCall::Custom(CustomFunctionCall { id, name, arguments }))
}

/// A chat message in a conversation.
#[derive(Debug, Clone, PartialEq)]
pub enum ChatMessage {
    /// Sets the behaviour of the assistant.
    System { content: String, name: Option<String> },
    /// Provides input.
    User { content: String, name: Option<String> },
    /// The model's response.
    Assistant { content: Option<String>, tool_calls: Option<Vec<ToolCall>>, name: Option<String> },
    /// A function call from the model.
    Function { name: String, arguments: String },
    /// The result of running a tool.
    Tool { tool_call_id: String, content: String },
}

/// A chat message, mathematically.
pub enum MessageView {
    System { content: Seq<char>, name: Option<Seq<char>> },
    User { content: Seq<char>, name: Option<Seq<char>> },
    Assistant {
        content: Option<Seq<char>>,
        tool_calls: Option<Seq<CallView>>,
        name: Option<Seq<char>>,
    },
    Function { name: Seq<char>, arguments: Seq<char> },
    Tool { tool_call_id: Seq<char>, content: Seq<char> },
}

impl MessageView {
    /// The text content of a message.
    pub open spec fn content(self) -> Option<Seq<char>> {
        match self {
            MessageView::System { content, name } => Some(content),
            MessageView::User { content, name } => Some(content),
            MessageView::Assistant { content, tool_calls, name } => content,
            MessageView::Function { name, arguments } => Some(arguments),
            MessageView::Tool { tool_call_id, content } => Some(content),
        }
    }

    /// The role of a message.
    pub open spec fn role(self) -> MessageRole {
        match self {
            MessageView::System { .. } => MessageRole::System,
            MessageView::User { .. } => MessageRole::User,
            MessageView::Assistant { .. } => MessageRole::Assistant,
            MessageView::Function { .. } => MessageRole::Function,
            MessageView::Tool { .. } => MessageRole::Tool,
        }
    }
}

/// An assistant message that holds nothing but text.
pub open spec fn assistant_text(content: Seq<char>) -> MessageView {
    MessageView::Assistant { content: Some(content), tool_calls: None, name: None }
}

impl View for ChatMessage {
    type V = MessageView;

    open spec fn view(&self) -> MessageView {
        match *self {
            ChatMessage::System { content, name } => MessageView::System {
                content: content@,
                name: text::opt_text(name),
            },
            ChatMessage::User { content, name } => MessageView::User {
                content: content@,
                name: text::opt_text(name),
            },
            ChatMessage::Assistant { content, tool_calls, name } => MessageView::Assistant {
                content: text::opt_text(content),
                tool_calls: opt_calls_view(tool_calls),
                name: text::opt_text(name),
            },
            ChatMessage::Function { name, arguments } => MessageView::Function {
                name: name@,
                arguments: arguments@,
            },
            ChatMessage::Tool { tool_call_id, content } => MessageView::Tool {
                tool_call_id: tool_call_id@,
                content: content@,
            },
        }
    }
}

/// The views of some messages.
pub open spec fn messages_view(messages: Seq<ChatMessage>) -> Seq<MessageView> {
    messages.map_values(|m: ChatMessage| m@)
}

impl ChatMessage {
    /// Creates a system message.
    pub fn system(content: &str) -> (r: ChatMessage)
        ensures
            r@ == (MessageView::System { content: content@, name: None }),
    {
        ChatMessage::System { content: content.to_owned(), name: None }
    }

    /// Creates a user message.
    pub fn user(content: &str) -> (r: ChatMessage)
        ensures
            r@ == (MessageView::User { content: content@, name: None }),
    {
        ChatMessage::User { content: content.to_owned(), name: None }
    }

    /// Creates an assistant message.
    pub fn assistant(content: &str) -> (r: ChatMessage)
        ensures
            r@ == assistant_text(content@),
    {
        ChatMessage::Assistant { content: Some(content.to_owned()), tool_calls: None, name: None }
    }

    /// The text content of the message.
    pub fn content(&self) -> (r: Option<&str>)
        ensures
            text::opt_str(r) == self@.content(),
    {
        match self {
            ChatMessage::System { content, .. } => Some(content.as_str()),
            ChatMessage::User { content, .. } => Some(content.as_str()),
            ChatMessage::Assistant { content, .. } => match content {
                Some(s) => Some(s.as_str()),
                None => None,
            },
            ChatMessage::Function { arguments, .. } => Some(arguments.as_str()),
            ChatMessage::Tool { content, .. } => Some(content.as_str()),
        }
    }

    /// The role of the message.
    pub fn role(&self) -> (r: MessageRole)
        ensures
            r == self@.role(),
    {
        match self {
            ChatMessage::System { .. } => MessageRole::System,
            ChatMessage::User { .. } => MessageRole::User,
            ChatMessage::Assistant { .. } => MessageRole::Assistant,
            ChatMessage::Function { .. } => MessageRole::Function,
            ChatMessage::Tool { .. } => MessageRole::Tool,
        }
    }
}

/// A function that the model may call.
#[derive(Debug, PartialEq)]
pub struct FunctionDefinition {
    pub name: String,
    pub description: Option<String>,
    pub parameters: Option<Json>,
}

/// A piece of a tool call in a stream.
#[derive(Debug, Clone, PartialEq)]
pub struct ToolCallDelta {
    pub index: u32,
    pub tool_type: Option<String>,
    pub function: Option<FunctionCall>,
}

/// A piece of a choice in a stream.
#[derive(Debug, Clone, PartialEq)]
pub struct ChoiceDelta {
    pub index: u32,
    pub delta: Option<ChatMessage>,
    pub finish_reason: Option<String>,
}

/// A piece of a choice in a stream, mathematically.
pub struct ChoiceDeltaView {
    pub index: u32,
    pub delta: Option<MessageView>,
    pub finish_reason: Option<Seq<char>>,
}

impl View for ChoiceDelta {
    type V = ChoiceDeltaView;

    open spec fn view(&self) -> ChoiceDeltaView {
        ChoiceDeltaView {
            index: self.index,
            delta: match self.delta {
                Some(m) => Some(m@),
                None => None,
            },
            finish_reason: text::opt_text(self.finish_reason),
        }
    }
}

/// Usage statistics of a completion.
#[derive(Debug, Clone, Copy, PartialEq, Eq, Structural)]
pub struct Usage {
    pub prompt_tokens: u32,
    pub completion_tokens: u32,
    pub total_tokens: u32,
}

impl Default for Usage {
    fn default() -> (r: Usage)
        ensures
            r == (Usage { prompt_tokens: 0, completion_tokens: 0, total_tokens: 0 }),
    {
        Usage { prompt_tokens: 0, completion_tokens: 0, total_tokens: 0 }
    }
}

impl Usage {
    /// Usage from prompt and completion tokens.
    pub fn new(prompt_tokens: u32, completion_tokens: u32) -> (r: Usage)
        requires
            prompt_tokens + completion_tokens <= u32::MAX,
        ensures
            r.prompt_tokens == prompt_tokens,
            r.completion_tokens == completion_tokens,
            r.total_tokens == prompt_tokens + completion_tokens,
    {
        let total_tokens: u32 = prompt_tokens + completion_tokens;
        Usage { prompt_tokens, completion_tokens, total_tokens }
    }

    /// The cost of the tokens at these prices per token, in the unit of the prices.
    pub fn calculate_cost(&self, input_cost: u64, output_cost: u64) -> (r: u128)
        ensures
            r == self.prompt_tokens * input_cost + self.completion_tokens * output_cost,
    {
        let input: u128 = cost_of(self.prompt_tokens, input_cost);
        let output: u128 = cost_of(self.completion_tokens, output_cost);
        input + output
    }
}

/// The price of some tokens.
pub fn cost_of(tokens: u32, price: u64) -> (r: u128)
    ensures
        r == tokens * price,
        r <= 0xffff_ffff * 0xffff_ffff_ffff_ffff,
{
    assert(0 <= tokens * price <= 0xffff_ffff * 0xffff_ffff_ffff_ffff) by (nonlinear_arith)
        requires
            0 <= tokens <= 0xffff_ffff,
            0 <= price <= 0xffff_ffff_ffff_ffff,
    ;
    (tokens as u128) * (price as u128)
}

/// A chat completion request.
#[derive(Debug, PartialEq)]
pub struct ChatCompletionRequest {
    /// Model identifier.
    pub model: String,
    /// Messages to send to the model.
    pub messages: Vec<ChatMessage>,
    /// Maximum number of tokens to generate.
    pub max_tokens: Option<u32>,
    /// Sampling temperature.
    pub temperature: Option<Real>,
    /// Top-p sampling.
    pub top_p: Option<Real>,
    /// Number of completions to generate.
    pub n: Option<u32>,
    /// Whether to stream the response.
    pub stream: Option<bool>,
    /// Stop sequences.
    pub stop: Vec<String>,
    /// Presence penalty.
    pub presence_penalty: Option<Real>,
    /// Frequency penalty.
    pub frequency_penalty: Option<Real>,
    /// Logit bias for token selection.
    pub logit_bias: StrMap<i32>,
    /// User identifier for tracking.
    pub user: Option<String>,
    /// Additional provider-specific parameters.
    pub extra_params: JsonObject,
}

impl Default for ChatCompletionRequest {
    /// A request with no model, no messages and no parameters.
    fn default() -> (r: ChatCompletionRequest)
        ensures
            r.model@ == Seq::<char>::empty(),
            r.messages@ == Seq::<ChatMessage>::empty(),
            r.max_tokens is None,
            r.temperature is None,
            r.top_p is None,
            r.n is None,
            r.stream is None,
            r.stop@ == Seq::<String>::empty(),
            r.presence_penalty is None,
            r.frequency_penalty is None,
            r.logit_bias.wf(),
            r.logit_bias@ == Map::<Seq<char>, i32>::empty(),
            r.user is None,
            r.extra_params@ == Map::<Seq<char>, json::JsonView>::empty(),
    {
        let logit_bias: StrMap<i32> = StrMap::new();
        proof {
            use_type_invariant(&logit_bias);
        }
        ChatCompletionRequest {
            model: String::new(),
            messages: Vec::new(),
            max_tokens: None,
            temperature: None,
            top_p: None,
            n: None,
            stream: None,
            stop: Vec::new(),
            presence_penalty: None,
            frequency_penalty: None,
            logit_bias,
            user: None,
            extra_params: JsonObject::new(),
        }
    }
}

/// The log probability of a token.
#[derive(Debug, PartialEq)]
pub struct TokenLogProb {
    pub token: String,
    pub logprob: Real,
    pub top_logprobs: Vec<StrMap<Real>>,
}

/// Log probability information.
#[derive(Debug, PartialEq)]
pub struct LogProbResponse {
    pub content: Vec<TokenLogProb>,
}

/// A completion choice.
#[derive(Debug, PartialEq)]
pub struct Choice {
    /// Index of this choice.
    pub index: u32,
    /// Generated message.
    pub message: ChatMessage,
    /// Reason for stopping.
    pub finish_reason: Option<String>,
    /// Log probabilities.
    pub logprobs: Option<LogProbResponse>,
}

/// A completion choice, mathematically.
pub struct ChoiceView {
    pub index: u32,
    pub message: MessageView,
    pub finish_reason: Option<Seq<char>>,
    pub logprobs: Option<LogProbResponse>,
}

impl View for Choice {
    type V = ChoiceView;

    open spec fn view(&self) -> ChoiceView {
        ChoiceView {
            index: self.index,
            message: self.message@,
            finish_reason: text::opt_text(self.finish_reason),
            logprobs: self.logprobs,
        }
    }
}

/// The views of some choices.
pub open spec fn choices_view(choices: Seq<Choice>) -> Seq<ChoiceView> {
    choices.map_values(|c: Choice| c@)
}

/// A chat completion response.
#[derive(Debug, PartialEq)]
pub struct ChatCompletionResponse {
    /// Unique identifier of this completion.
    pub id: String,
    /// Type of object.
    pub object: String,
    /// Unix timestamp of creation.
    pub created: u64,
    /// Model used for completion.
    pub model: String,
    /// Completion choices.
    pub choices: Vec<Choice>,
    /// Usage statistics.
    pub usage: Option<Usage>,
    /// System fingerprint of the response.
    pub system_fingerprint: Option<String>,
}

/// A chat completion response, mathematically.
pub struct ResponseView {
    pub id: Seq<char>,
    pub object: Seq<char>,
    pub created: u64,
    pub model: Seq<char>,
    pub choices: Seq<ChoiceView>,
    pub usage: Option<Usage>,
    pub system_fingerprint: Option<Seq<char>>,
}

impl View for ChatCompletionResponse {
    type V = ResponseView;

    open spec fn view(&self) -> ResponseView {
        ResponseView {
            id: self.id@,
            object: self.object@,
            created: self.created,
            model: self.model@,
            choices: choices_view(self.choices@),
            usage: self.usage,
            system_fingerprint: text::opt_text(self.system_fingerprint),
        }
    }
}

/// A piece of a streamed response.
#[derive(Debug, Clone, PartialEq)]
pub enum Chunk {
    Completion(ChunkCompletion),
}

/// A piece of a streamed completion.
#[derive(Debug, Clone, PartialEq)]
pub struct ChunkCompletion {
    pub id: String,
    pub object: String,
    pub created: u64,
    pub model: String,
    pub choices: Vec<ChoiceDelta>,
}

/// A piece of a streamed response, mathematically.
pub struct ChunkView {
    pub id: Seq<char>,
    pub object: Seq<char>,
    pub created: u64,
    pub model: Seq<char>,
    pub choices: Seq<ChoiceDeltaView>,
}

impl View for ChunkCompletion {
    type V = ChunkView;

    open spec fn view(&self) -> ChunkView {
        ChunkView {
            id: self.id@,
            object: self.object@,
            created: self.created,
            model: self.model@,
            choices: self.choices@.map_values(|c: ChoiceDelta| c@),
        }
    }
}

impl View for Chunk {
    type V = ChunkView;

    open spec fn view(&self) -> ChunkView {
        match *self {
            Chunk::Completion(c) => c@,
        }
    }
}

/// Model information.
#[derive(Debug, PartialEq)]
pub struct ModelInfo {
    pub id: String,
    pub object: String,
    pub created: u64,
    pub owned_by: String,
    pub permission: Option<Vec<Json>>,
}

/// Prices of a model, in billionths of a US dollar per thousand tokens, which is trillionths of
/// a US dollar per token.
#[derive(Debug, Clone, Copy, PartialEq, Eq, Structural)]
pub struct ModelPricing {
    pub prompt_tokens: u64,
    pub completion_tokens: u64,
    pub image_tokens: Option<u64>,
    pub is_free: bool,
}

/// What a model can do.
#[derive(Debug, Clone, PartialEq)]
pub struct ModelCapabilities {
    pub function_calling: bool,
    pub vision: bool,
    pub streaming: bool,
    pub json_mode: bool,
    pub caching: bool,
    pub max_tokens: u32,
    pub context_window: u32,
    pub input_modalities: Vec<String>,
    pub output_modalities: Vec<String>,
    pub strengths: Vec<String>,
}

/// What a model can do, mathematically.
pub struct CapabilitiesView {
    pub function_calling: bool,
    pub vision: bool,
    pub streaming: bool,
    pub json_mode: bool,
    pub caching: bool,
    pub max_tokens: u32,
    pub context_window: u32,
    pub input_modalities: Seq<Seq<char>>,
    pub output_modalities: Seq<Seq<char>>,
    pub strengths: Seq<Seq<char>>,
}

impl View for ModelCapabilities {
    type V = CapabilitiesView;

    open spec fn view(&self) -> CapabilitiesView {
        CapabilitiesView {
            function_calling: self.function_calling,
            vision: self.vision,
            streaming: self.streaming,
            json_mode: self.json_mode,
            caching: self.caching,
            max_tokens: self.max_tokens,
            context_window: self.context_window,
            input_modalities: text::texts(self.input_modalities@),
            output_modalities: text::texts(self.output_modalities@),
            strengths: text::texts(self.strengths@),
        }
    }
}

/// The capabilities of a model of which nothing is known.
pub open spec fn no_capabilities() -> CapabilitiesView {
    CapabilitiesView {
        function_calling: false,
        vision: false,
        streaming: false,
        json_mode: false,
        caching: false,
        max_tokens: 0,
        context_window: 0,
        input_modalities: Seq::empty(),
        output_modalities: Seq::empty(),
        strengths: Seq::empty(),
    }
}

impl Default for ModelCapabilities {
    fn default() -> (r: ModelCapabilities)
        ensures
            r@ == no_capabilities(),
    {
        let r = ModelCapabilities {
            function_calling: false,
            vision: false,
            streaming: false,
            json_mode: false,
            caching: false,
            max_tokens: 0,
            context_window: 0,
            input_modalities: Vec::new(),
            output_modalities: Vec::new(),
            strengths: Vec::new(),
        };
        assert(text::texts(Seq::<String>::empty()) =~= Seq::empty());
        r
    }
}

/// A model variant.
#[derive(Debug, Clone)]
pub struct ModelVariant {
    pub id: String,
    pub name: String,
    pub pricing: ModelPricing,
    pub capabilities: ModelCapabilities,
}

/// Full information on a model.
#[derive(Debug, Clone, PartialEq)]
pub struct FullModelInfo {
    pub id: String,
    pub name: String,
    pub provider: String,
    pub description: Option<String>,
    pub context_window: u32,
    pub max_output_tokens: u32,
    pub capabilities: ModelCapabilities,
    pub pricing: Option<ModelPricing>,
    pub created: u64,
    pub available: bool,
}

/// Full information on a model, mathematically.
pub struct FullModelInfoView {
    pub id: Seq<char>,
    pub name: Seq<char>,
    pub provider: Seq<char>,
    pub description: Option<Seq<char>>,
    pub context_window: u32,
    pub max_output_tokens: u32,
    pub capabilities: CapabilitiesView,
    pub pricing: Option<ModelPricing>,
    pub created: u64,
    pub available: bool,
}

impl View for FullModelInfo {
    type V = FullModelInfoView;

    open spec fn view(&self) -> FullModelInfoView {
        FullModelInfoView {
            id: self.id@,
            name: self.name@,
            provider: self.provider@,
            description: text::opt_text(self.description),
            context_window: self.context_window,
            max_output_tokens: self.max_output_tokens,
            capabilities: self.capabilities@,
            pricing: self.pricing,
            created: self.created,
            available: self.available,
        }
    }
}

/// The views of some models.
pub open spec fn models_view(models: Seq<FullModelInfo>) -> Seq<FullModelInfoView> {
    models.map_values(|m: FullModelInfo| m@)
}

/// The direction of an ordering.
#[derive(Debug, Clone, Copy, PartialEq, Eq, Structural)]
pub enum SortOrder {
    Ascending,
    Descending,
}

/// What one message adds to the estimated size of a prompt: a quarter of its bytes, or ten where
/// it has no text.
pub open spec fn message_weight(m: MessageView) -> nat {
    match m.content() {
        Some(c) => (text::byte_len(c) / 4) as nat,
        None => 10,
    }
}

/// The estimated size of a prompt.
pub open spec fn prompt_weight(messages: Seq<MessageView>) -> nat
    decreases messages.len(),
{
    if messages.len() == 0 {
        0
    } else {
        prompt_weight(messages.drop_last()) + message_weight(messages.last())
    }
}

/// The estimated number of prompt tokens: the prompt's weight in 32 bits.
pub open spec fn prompt_tokens(messages: Seq<MessageView>) -> u32 {
    (prompt_weight(messages) % 0x1_0000_0000) as u32
}

/// The estimated number of tokens of the messages.
pub fn estimate_prompt_tokens(messages: &Vec<ChatMessage>) -> (r: u32)
    ensures
        r == prompt_tokens(messages_view(messages@)),
{
    let mut total: u128 = 0;
    let mut i: usize = 0;
    let ghost all = messages_view(messages@);
    assert(all.take(0) =~= Seq::empty());
    while i < messages.len()
        invariant
            i <= messages@.len(),
            all == messages_view(messages@),
            total == prompt_weight(all.take(i as int)),
            total <= i * 0x1_0000_0000_0000_0000,
        decreases messages@.len() - i,
    {
        let weight: usize = match messages[i].content() {
            Some(c) => c.len() / 4,
            None => 10,
        };
        assert(all.take(i + 1).drop_last() =~= all.take(i as int));
        assert(all.take(i + 1).last() == messages@[i as int]@);
        assert(weight == message_weight(messages@[i as int]@));
        total = total + weight as u128;
        i = i + 1;
    }
    assert(all.take(i as int) =~= all);
    (total % 0x1_0000_0000) as u32
}

/// Every message counts, whatever its role: at the end of any conversation it adds a quarter of
/// the bytes of its text, rounded down, or ten where it has no text. The sum is taken in 32 bits.
pub proof fn law_every_message_counts(
    messages: Seq<MessageView>,
    m: MessageView,
    words: Option<Seq<char>>,
)
    requires
        match m {
            MessageView::System { content, .. } => words == Some(content),
            MessageView::User { content, .. } => words == Some(content),
            MessageView::Assistant { content, .. } => words == content,
            MessageView::Function { arguments, .. } => words == Some(arguments),
            MessageView::Tool { content, .. } => words == Some(content),
        },
        words matches Some(w) ==> vstd::utf8::encode_utf8(w).len() <= usize::MAX,
    ensures
        prompt_tokens(messages.push(m)) == (prompt_tokens(messages) + (match words {
            Some(w) => vstd::utf8::encode_utf8(w).len() as int / 4,
            None => 10,
        })) % 0x1_0000_0000,
        prompt_tokens(Seq::<MessageView>::empty()) == 0,
{
    assert(messages.push(m).drop_last() =~= messages);
    let share: int = message_weight(m) as int;
    let before: int = prompt_weight(messages) as int;
    assert((before + share) % 0x1_0000_0000
        == (before % 0x1_0000_0000 + share) % 0x1_0000_0000) by {
        vstd::arithmetic::div_mod::lemma_add_mod_noop(before, share, 0x1_0000_0000);
        vstd::arithmetic::div_mod::lemma_add_mod_noop(before % 0x1_0000_0000, share, 0x1_0000_0000);
        vstd::arithmetic::div_mod::lemma_mod_twice(before, 0x1_0000_0000);
    }
}

/// A conversation of one message with a text of this many bytes has a quarter as many tokens,
/// rounded down, whoever speaks.
pub proof fn law_single_message(m: MessageView, words: Seq<char>)
    requires
        match m {
            MessageView::System { content, .. } => words == content,
            MessageView::User { content, .. } => words == content,
            MessageView::Assistant { content, .. } => Some(words) == content,
            MessageView::Function { arguments, .. } => words == arguments,
            MessageView::Tool { content, .. } => words == content,
        },
        vstd::utf8::encode_utf8(words).len() / 4 <= u32::MAX,
        vstd::utf8::encode_utf8(words).len() <= usize::MAX,
    ensures
        prompt_tokens(seq![m]) == vstd::utf8::encode_utf8(words).len() / 4,
{
    law_every_message_counts(Seq::empty(), m, Some(words));
    assert(Seq::<MessageView>::empty().push(m) =~= seq![m]);
}

/// What a message says and who says it.
pub proof fn law_contents_and_roles(m: MessageView)
    ensures
        match m {
            MessageView::System { content, .. } => m.content() == Some(content) && m.role()
                == MessageRole::System,
            MessageView::User { content, .. } => m.content() == Some(content) && m.role()
                == MessageRole::User,
            MessageView::Assistant { content, .. } => m.content() == content && m.role()
                == MessageRole::Assistant,
            MessageView::Function { arguments, .. } => m.content() == Some(arguments) && m.role()
                == MessageRole::Function,
            MessageView::Tool { content, .. } => m.content() == Some(content) && m.role()
                == MessageRole::Tool,
        },
{
}

/// The text is seen where there is one, and nothing where there is none.
pub open spec fn same_text(seen: Option<Seq<char>>, held: Option<String>) -> bool {
    match held {
        Some(s) => seen == Some(s@),
        None => seen is None,
    }
}

/// A message is seen with all that it holds.
pub proof fn law_messages_as_seen(m: ChatMessage)
    ensures
        match m {
            ChatMessage::System { content, name } => m@ matches MessageView::System {
                content: c,
                name: n,
            } && c == content@ && same_text(n, name),
            ChatMessage::User { content, name } => m@ matches MessageView::User {
                content: c,
                name: n,
            } && c == content@ && same_text(n, name),
            ChatMessage::Assistant { content, tool_calls, name } => m@
                matches MessageView::Assistant { content: c, tool_calls: t, name: n } && same_text(
                c,
                content,
            ) && same_text(n, name) && match tool_calls {
                Some(v) => t is Some && t->0.len() == v@.len() && forall|i: int|
                    0 <= i < v@.len() ==> t->0[i] == (#[trigger] v@[i])@,
                None => t is None,
            },
            ChatMessage::Function { name, arguments } => m@ == (MessageView::Function {
                name: name@,
                arguments: arguments@,
            }),
            ChatMessage::Tool { tool_call_id, content } => m@ == (MessageView::Tool {
                tool_call_id: tool_call_id@,
                content: content@,
            }),
        },
{
}

/// A tool call is seen with all that it holds.
pub proof fn law_calls_as_seen(c: ToolCall)
    ensures
        match c {
            ToolCall::Function(FunctionCall::Code(x)) => c@ matches CallView::Code { code, stdin }
                && code == x.code@ && same_text(stdin, x.stdin),
            ToolCall::Function(FunctionCall::Retrieval(x)) => c@ matches CallView::Retrieval {
                query,
                max_results,
            } && query == x.query@ && max_results == x.max_results,
            ToolCall::Function(FunctionCall::Custom(x)) => c@ matches CallView::Custom {
                id,
                name,
                arguments,
            } && same_text(id, x.id) && name == x.name@ && arguments == x.arguments@,
        },
{
}

/// Messages and models are seen one by one, in their order.
pub proof fn law_lists_as_seen(
    messages: Seq<ChatMessage>,
    models: Seq<FullModelInfo>,
    i: int,
    j: int,
)
    ensures
        messages_view(messages).len() == messages.len(),
        0 <= i < messages.len() ==> messages_view(messages)[i] == messages[i]@,
        models_view(models).len() == models.len(),
        0 <= j < models.len() ==> models_view(models)[j] == models[j]@,
{
}

/// A response is seen with all that it holds.
pub proof fn law_responses_as_seen(r: ChatCompletionResponse, i: int)
    ensures
        r@.id == r.id@,
        r@.object == r.object@,
        r@.created == r.created,
        r@.model == r.model@,
        r@.usage == r.usage,
        same_text(r@.system_fingerprint, r.system_fingerprint),
        r@.choices.len() == r.choices@.len(),
        0 <= i < r.choices@.len() ==> r@.choices[i].index == r.choices@[i].index
            && r@.choices[i].message == r.choices@[i].message@ && same_text(
            r@.choices[i].finish_reason,
            r.choices@[i].finish_reason,
        ) && r@.choices[i].logprobs == r.choices@[i].logprobs,
{
}

/// A chunk is seen with all that it holds.
pub proof fn law_chunks_as_seen(k: Chunk, i: int)
    ensures
        match k {
            Chunk::Completion(c) => k@.id == c.id@ && k@.object == c.object@ && k@.created
                == c.created && k@.model == c.model@ && k@.choices.len() == c.choices@.len() && (0
                <= i < c.choices@.len() ==> k@.choices[i].index == c.choices@[i].index && same_text(
                k@.choices[i].finish_reason,
                c.choices@[i].finish_reason,
            ) && match c.choices@[i].delta {
                Some(m) => k@.choices[i].delta == Some(m@),
                None => k@.choices[i].delta is None,
            }),
        },
{
}

/// Texts are seen one by one, in their order.
pub open spec fn same_texts(seen: Seq<Seq<char>>, held: Seq<String>) -> bool {
    seen.len() == held.len() && forall|i: int|
        0 <= i < held.len() ==> seen[i] == (#[trigger] held[i])@
}

/// A model is seen with all that is known of it.
pub proof fn law_models_as_seen(m: FullModelInfo)
    ensures
        m@.id == m.id@,
        m@.name == m.name@,
        m@.provider == m.provider@,
        same_text(m@.description, m.description),
        m@.context_window == m.context_window,
        m@.max_output_tokens == m.max_output_tokens,
        m@.pricing == m.pricing,
        m@.created == m.created,
        m@.available == m.available,
        m@.capabilities.function_calling == m.capabilities.function_calling,
        m@.capabilities.vision == m.capabilities.vision,
        m@.capabilities.streaming == m.capabilities.streaming,
        m@.capabilities.json_mode == m.capabilities.json_mode,
        m@.capabilities.caching == m.capabilities.caching,
        m@.capabilities.max_tokens == m.capabilities.max_tokens,
        m@.capabilities.context_window == m.capabilities.context_window,
        same_texts(m@.capabilities.input_modalities, m.capabilities.input_modalities@),
        same_texts(m@.capabilities.output_modalities, m.capabilities.output_modalities@),
        same_texts(m@.capabilities.strengths, m.capabilities.strengths@),
{
}

/// Of a model of which nothing is known, nothing is claimed.
pub proof fn law_nothing_is_claimed()
    ensures
        ({
            let c = no_capabilities();
            &&& !c.function_calling && !c.vision && !c.streaming && !c.json_mode && !c.caching
            &&& c.max_tokens == 0 && c.context_window == 0
            &&& c.input_modalities.len() == 0 && c.output_modalities.len() == 0
                && c.strengths.len() == 0
        }),
{
}

} // verus!
