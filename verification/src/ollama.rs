//! The Ollama provider, for models that run locally.

use crate::catalogue;
use crate::cost_tracker::{CostEstimate, EstimateView};
use crate::error;
use crate::error::{ErrorView, LLMError};
use crate::http;
use crate::http::{
    FailureView, HttpFailure, HttpOutcome, HttpRequest, HttpRequestView, OutcomeView,
};
use crate::json;
use crate::json::{Json, JsonObject, JsonView};
use crate::openai;
use crate::openrouter;
use crate::outside;
use crate::provider::LLMProvider;
use crate::rate_limiter::RateLimitStatus;
use crate::streaming::{ChunkStream, Dialect};
use crate::text;
use crate::types;
use crate::types::{
    CallView, CapabilitiesView, ChatCompletionRequest, ChatCompletionResponse, ChatMessage, Choice,
    ChoiceView, FullModelInfo, FullModelInfoView, FunctionCall, FunctionDefinition, MessageView,
    ModelCapabilities, ModelPricing, ResponseView, ToolCall, Usage,
};
use crate::wire;
use vstd::prelude::*;

verus! {

/// Ollama configuration.
#[derive(Debug, Clone)]
pub struct OllamaConfig {
    pub host: String,
    pub default_model: Option<String>,
}

impl Default for OllamaConfig {
    fn default() -> (r: OllamaConfig)
        ensures
            r.host@ == "http://localhost:11434"@,
            r.default_model is None,
    {
        OllamaConfig { host: "http://localhost:11434".to_owned(), default_model: None }
    }
}

/// The Ollama provider.
#[derive(Debug)]
pub struct OllamaProvider {
    config: OllamaConfig,
}

/// A model that the server has.
#[derive(Debug, Clone, PartialEq)]
pub struct OllamaModel {
    pub name: String,
    pub size: String,
}

/// What came back of a request for the models that the server has.
#[derive(Debug)]
pub enum TagsOutcome {
    /// No usable answer.
    Failed { failure: HttpFailure },
    /// The body of the answer is no list of models.
    Unreadable { message: String },
    /// The models, where the answer has some.
    Listed { models: Option<Vec<OllamaModel>> },
}

/// A tool call in Ollama's form. Only calls of custom functions have one.
pub open spec fn call_json(call: CallView) -> Option<JsonView> {
    match call {
        CallView::Custom { id, name, arguments } => Some(
            JsonView::Object(
                Map::empty().insert(
                    "function"@,
                    JsonView::Object(
                        Map::empty().insert("name"@, JsonView::Text(name)).insert(
                            "arguments"@,
                            wire::arguments_value(json::json_parsed(arguments)),
                        ),
                    ),
                ),
            ),
        ),
        _ => None,
    }
}

/// The tool calls in Ollama's form, in order.
pub open spec fn calls_json(calls: Seq<CallView>) -> Seq<JsonView>
    decreases calls.len(),
{
    if calls.len() == 0 {
        Seq::empty()
    } else {
        wire::and_then_one(calls_json(calls.drop_last()), call_json(calls.last()))
    }
}

/// The member `tool_calls` of an assistant message; nothing where it would be empty.
pub open spec fn calls_member(calls: Option<Seq<CallView>>) -> Option<JsonView> {
    match calls {
        Some(c) => if calls_json(c).len() == 0 {
            None
        } else {
            Some(JsonView::Array(calls_json(c)))
        },
        None => None,
    }
}

/// A message in Ollama's form.
pub open spec fn message_json(m: MessageView) -> JsonView {
    JsonView::Object(
        match m {
            MessageView::System { content, .. } => wire::role_content(
                "system"@,
                JsonView::Text(content),
            ),
            MessageView::User { content, .. } => wire::role_content(
                "user"@,
                JsonView::Text(content),
            ),
            MessageView::Assistant { content, tool_calls, .. } => json::with_optional(
                wire::role_content(
                    "assistant"@,
                    JsonView::Text(text::text_or(content, Seq::empty())),
                ),
                "tool_calls"@,
                calls_member(tool_calls),
            ),
            MessageView::Tool { tool_call_id, content } => wire::role_content(
                "tool"@,
                JsonView::Text(content),
            ).insert("tool_name"@, JsonView::Text(tool_call_id)),
            MessageView::Function { name, arguments } => wire::role_content(
                "tool"@,
                JsonView::Text(arguments),
            ).insert("tool_name"@, JsonView::Text(name)),
        },
    )
}

/// The messages in Ollama's form.
pub open spec fn messages_json(messages: Seq<MessageView>) -> JsonView {
    JsonView::Array(messages.map_values(|m: MessageView| message_json(m)))
}

/// The body of a request for a completion, streamed or not.
pub open spec fn chat_body(request: ChatCompletionRequest, model: Seq<char>, stream: bool) -> JsonView {
    JsonView::Object(
        wire::with_sampling(
            Map::empty().insert("model"@, JsonView::Text(model)).insert(
                "messages"@,
                messages_json(types::messages_view(request.messages@)),
            ).insert("stream"@, JsonView::Bool(stream)),
            "num_predict"@,
            "top_p"@,
            request,
        ),
    )
}

/// The body of a request for a completion with functions.
pub open spec fn functions_body(
    request: ChatCompletionRequest,
    model: Seq<char>,
    functions: Seq<FunctionDefinition>,
) -> JsonView {
    JsonView::Object(
        wire::with_sampling(
            Map::empty().insert("model"@, JsonView::Text(model)).insert(
                "messages"@,
                messages_json(types::messages_view(request.messages@)),
            ).insert("stream"@, JsonView::Bool(false)).insert(
                "tools"@,
                wire::tools_json(functions),
            ),
            "num_predict"@,
            "top_p"@,
            request,
        ),
    )
}

/// The tool call in one item of an answer; `written` is its arguments as JSON text. An item
/// without a function, a name or arguments is none.
pub open spec fn parsed_call(tc: JsonView, written: Option<Seq<char>>) -> Option<CallView> {
    match (tc.field("function"@).field("name"@).text(), written) {
        (Some(name), Some(arguments)) => Some(CallView::Custom { id: None, name, arguments }),
        _ => None,
    }
}

/// The arguments of an item as JSON text; nothing where it has none.
pub open spec fn written_arguments(tc: JsonView) -> Option<Seq<char>> {
    match tc.field("function"@).lookup("arguments"@) {
        Some(arguments) => json::json_rendered(arguments),
        None => None,
    }
}

/// The tool calls in some items, in order.
pub open spec fn parsed_calls(items: Seq<JsonView>) -> Seq<CallView>
    decreases items.len(),
{
    if items.len() == 0 {
        Seq::empty()
    } else {
        wire::and_then_one(
            parsed_calls(items.drop_last()),
            parsed_call(items.last(), written_arguments(items.last())),
        )
    }
}

/// The text of an answer.
pub open spec fn answer_text(j: JsonView) -> Seq<char> {
    text::text_or(j.field("message"@).field("content"@).text(), Seq::empty())
}

/// The tool calls of an answer, where there are some.
pub open spec fn answer_calls(j: JsonView) -> Option<Seq<CallView>> {
    openai::some_calls(parsed_calls(j.field("message"@).field("tool_calls"@).items_or_none()))
}

/// The estimated number of tokens of a text: a quarter of its bytes, in 32 bits.
pub open spec fn text_tokens(s: Seq<char>) -> u32 {
    (text::byte_len(s) / 4) as u32
}

/// The estimated tokens of prompt and completion together are in range.
pub open spec fn usage_in_range(request: ChatCompletionRequest, j: JsonView) -> bool {
    types::prompt_tokens(types::messages_view(request.messages@)) + text_tokens(answer_text(j))
        <= u32::MAX
}

/// The estimated usage. The server does not always count.
pub open spec fn estimated_usage(request: ChatCompletionRequest, j: JsonView) -> Usage {
    let prompt = types::prompt_tokens(types::messages_view(request.messages@));
    let completion = text_tokens(answer_text(j));
    Usage {
        prompt_tokens: prompt,
        completion_tokens: completion,
        total_tokens: (prompt + completion) as u32,
    }
}

/// The message of an answer with these tool calls.
pub open spec fn answer_message(content: Seq<char>, calls: Option<Seq<CallView>>) -> MessageView {
    match calls {
        Some(c) => MessageView::Assistant {
            content: if content.len() == 0 {
                None
            } else {
                Some(content)
            },
            tool_calls: Some(c),
            name: None,
        },
        None => types::assistant_text(content),
    }
}

/// The response in an answer, at a moment given in milliseconds and in seconds. Tool calls are
/// read from answers to requests with functions.
pub open spec fn parsed_response(
    request: ChatCompletionRequest,
    j: JsonView,
    model: Seq<char>,
    functions: bool,
    millis: i64,
    seconds: i64,
) -> ResponseView {
    let calls = if functions {
        answer_calls(j)
    } else {
        None
    };
    ResponseView {
        id: "ollama_"@ + text::signed_decimal(millis as int),
        object: "chat.completion"@,
        created: seconds as u64,
        model,
        choices: seq![
            ChoiceView {
                index: 0,
                message: answer_message(answer_text(j), calls),
                finish_reason: if calls is Some {
                    Some("tool_calls"@)
                } else {
                    Some("stop"@)
                },
                logprobs: None,
            },
        ],
        usage: Some(estimated_usage(request, j)),
        system_fingerprint: None,
    }
}

/// What the answer to a request with functions is called where it cannot be read.
pub open spec fn unread_context(functions: bool) -> Seq<char> {
    if functions {
        "Failed to parse Ollama function calling response"@
    } else {
        "Failed to parse Ollama response"@
    }
}

/// What the names of models that can call functions begin with.
pub open spec fn known_prefixes() -> Seq<Seq<char>> {
    seq![
        "llama3.1"@,
        "llama3.2"@,
        "llama3.3"@,
        "llama4"@,
        "mistral"@,
        "mistral-large"@,
        "mixtral"@,
        "qwen2.5"@,
        "qwen3"@,
        "deepseek-r1"@,
        "deepseek-coder-v2"@,
        "gemma2"@,
        "gemma3"@,
        "phi4"@,
        "command-r"@,
        "codestral"@,
        "hermes3"@,
        "dolphin"@,
    ]
}

/// A model whose name in lower case is this can call functions.
pub open spec fn lower_calls_functions(lower: Seq<char>) -> bool {
    exists|i: int|
        0 <= i < known_prefixes().len() && text::begins(lower, #[trigger] known_prefixes()[i])
}

/// Prices of nothing.
pub open spec fn free() -> ModelPricing {
    ModelPricing { prompt_tokens: 0, completion_tokens: 0, image_tokens: None, is_free: true }
}

/// A model that the server has; `calls` says whether it can call functions.
pub open spec fn tagged_model(name: Seq<char>, size: Seq<char>, calls: bool) -> FullModelInfoView {
    FullModelInfoView {
        id: name,
        name,
        provider: "ollama"@,
        description: Some("Ollama model ("@ + size + ")"@),
        context_window: 4096,
        max_output_tokens: 2048,
        capabilities: CapabilitiesView {
            function_calling: calls,
            vision: false,
            streaming: true,
            json_mode: false,
            caching: false,
            max_tokens: 2048,
            context_window: 4096,
            input_modalities: catalogue::text_only(),
            output_modalities: catalogue::text_only(),
            strengths: Seq::empty(),
        },
        pricing: Some(free()),
        created: 0,
        available: true,
    }
}

/// The models that the server has.
pub open spec fn tagged_models(models: Seq<OllamaModel>) -> Seq<FullModelInfoView> {
    models.map_values(
        |m: OllamaModel|
            tagged_model(m.name@, m.size@, lower_calls_functions(outside::lowercased(m.name@))),
    )
}

/// The models in the answer to a request for them, or the error in their place.
pub open spec fn tags_answer(outcome: TagsOutcome) -> Result<Seq<FullModelInfoView>, ErrorView> {
    match outcome {
        TagsOutcome::Failed { failure } => match failure@ {
            FailureView::Unsent { message } => Err(
                ErrorView::HttpError {
                    message: "Failed to fetch Ollama models: "@ + message,
                    status_code: None,
                    body: None,
                },
            ),
            FailureView::Refused { status, code, body } => Err(
                ErrorView::HttpError {
                    message: "Ollama API returned status: "@ + status,
                    status_code: Some(code),
                    body: None,
                },
            ),
        },
        TagsOutcome::Unreadable { message } => Err(
            ErrorView::SerializationError {
                message: "Failed to parse Ollama response: "@ + message@,
                context: Some("list_models"@),
            },
        ),
        TagsOutcome::Listed { models } => Ok(
            match models {
                Some(m) => tagged_models(m@),
                None => Seq::empty(),
            },
        ),
    }
}

/// What a local model is good at, by its name in lower case.
pub open spec fn strengths(lower: Seq<char>) -> Seq<Seq<char>> {
    openrouter::with_if(
        openrouter::with_if(
            Seq::empty(),
            text::occurs(lower, "coder"@) || text::occurs(lower, "code"@),
            "coding"@,
        ),
        text::occurs(lower, "reason"@) || text::occurs(lower, "deepseek-r"@),
        "reasoning"@,
    )
}

/// The model that an item with this name of the detailed list describes; `lower` is the name in
/// lower case.
pub open spec fn detailed_model(m: JsonView, name: Seq<char>, lower: Seq<char>) -> FullModelInfoView {
    let details = m.field("details"@);
    let family = text::text_or(details.field("family"@).text(), "unknown"@);
    FullModelInfoView {
        id: name,
        name: name + " ("@ + text::text_or(details.field("parameter_size"@).text(), "?"@) + ", "@
            + text::text_or(details.field("quantization_level"@).text(), "?"@) + ")"@,
        provider: "ollama"@,
        description: Some("Local Ollama ("@ + family + ")"@),
        context_window: 8192,
        max_output_tokens: 4096,
        capabilities: CapabilitiesView {
            function_calling: family == "llama"@ || family == "qwen2"@ || family == "mistral"@,
            vision: false,
            streaming: true,
            json_mode: false,
            caching: false,
            max_tokens: 4096,
            context_window: 8192,
            input_modalities: catalogue::text_only(),
            output_modalities: catalogue::text_only(),
            strengths: strengths(lower),
        },
        pricing: Some(free()),
        created: 0,
        available: true,
    }
}

/// The model that an item of the detailed list describes. An item without a name is none.
pub open spec fn detailed_item(m: JsonView) -> Option<FullModelInfoView> {
    match m.field("name"@).text() {
        Some(name) => Some(detailed_model(m, name, outside::lowercased(name))),
        None => None,
    }
}

/// The models that the items of the detailed list describe.
pub open spec fn detailed_models(items: Seq<JsonView>) -> Seq<FullModelInfoView>
    decreases items.len(),
{
    if items.len() == 0 {
        Seq::empty()
    } else {
        wire::and_then_one(detailed_models(items.drop_last()), detailed_item(items.last()))
    }
}

/// The detailed models in an answer, or the error in their place.
pub open spec fn detailed_answer(outcome: OutcomeView) -> Result<Seq<FullModelInfoView>, ErrorView> {
    match outcome {
        OutcomeView::Failed { failure: FailureView::Unsent { message } } => Err(
            ErrorView::HttpError {
                message: "Failed to fetch Ollama models: "@ + message,
                status_code: None,
                body: None,
            },
        ),
        OutcomeView::Failed { failure: FailureView::Refused { status, code, body } } => Err(
            ErrorView::HttpError {
                message: "Ollama /api/tags returned "@ + status,
                status_code: Some(code),
                body,
            },
        ),
        OutcomeView::Unreadable { message } => Err(
            ErrorView::SerializationError {
                message,
                context: Some("Failed to parse Ollama models response"@),
            },
        ),
        OutcomeView::Answered { json } => match json.field("models"@).items() {
            Some(items) => Ok(detailed_models(items)),
            None => Err(
                ErrorView::SerializationError {
                    message: "Missing 'models' array"@,
                    context: None,
                },
            ),
        },
    }
}

/// What is said where neither the request nor the configuration names a model.
pub open spec fn no_model_message() -> Seq<char> {
    "No model configured for OllamaProvider — set default_model in OllamaConfig or pass a model in the request"@
}

/// A tool call with this name and these arguments in Ollama's form.
pub fn make_call(name: &str, arguments: Json) -> (r: Json)
    ensures
        r@ == JsonView::Object(
            Map::empty().insert(
                "function"@,
                JsonView::Object(
                    Map::empty().insert("name"@, JsonView::Text(name@)).insert(
                        "arguments"@,
                        arguments@,
                    ),
                ),
            ),
        ),
{
    let mut f = JsonObject::new();
    f.set("name", Json::of_text(name));
    f.set("arguments", arguments);
    let mut o = JsonObject::new();
    o.set("function", Json::Object(f));
    Json::Object(o)
}

fn make_calls(calls: &Vec<ToolCall>) -> (r: Vec<Json>)
    ensures
        json::items_view(r@) == calls_json(types::calls_view(calls@)),
{
    let mut out: Vec<Json> = Vec::new();
    let mut i: usize = 0;
    let ghost all = types::calls_view(calls@);
    assert(all.take(0) =~= Seq::empty());
    assert(json::items_view(out@) =~= Seq::empty());
    while i < calls.len()
        invariant
            i <= calls@.len(),
            all == types::calls_view(calls@),
            json::items_view(out@) == calls_json(all.take(i as int)),
        decreases calls@.len() - i,
    {
        assert(all.take(i + 1).drop_last() =~= all.take(i as int));
        assert(all.take(i + 1).last() == calls@[i as int]@);
        match &calls[i] {
            ToolCall::Function(FunctionCall::Custom(c)) => {
                let arguments = wire::make_arguments(json::parse(c.arguments.as_str()));
                let item = make_call(c.name.as_str(), arguments);
                let ghost before = out@;
                out.push(item);
                assert(json::items_view(out@) =~= json::items_view(before).push(item@));
            },
            _ => {},
        }
        i = i + 1;
    }
    assert(all.take(i as int) =~= all);
    out
}

/// A message in Ollama's form.
pub fn serialize_message(msg: &ChatMessage) -> (r: Json)
    ensures
        r@ == message_json(msg@),
{
    match msg {
        ChatMessage::System { content, .. } => Json::Object(
            wire::role_object("system", Json::Text(content.clone())),
        ),
        ChatMessage::User { content, .. } => Json::Object(
            wire::role_object("user", Json::Text(content.clone())),
        ),
        ChatMessage::Assistant { content, tool_calls, .. } => {
            let plain = match content {
                Some(c) => c.clone(),
                None => String::new(),
            };
            let mut o = wire::role_object("assistant", Json::Text(plain));
            match tool_calls {
                Some(calls) => {
                    let made = make_calls(calls);
                    assert(json::items_view(made@).len() == made@.len());
                    if made.len() != 0 {
                        o.set("tool_calls", Json::Array(made));
                    }
                },
                None => {},
            }
            Json::Object(o)
        },
        ChatMessage::Tool { tool_call_id, content } => {
            let mut o = wire::role_object("tool", Json::Text(content.clone()));
            o.set("tool_name", Json::Text(tool_call_id.clone()));
            Json::Object(o)
        },
        ChatMessage::Function { name, arguments } => {
            let mut o = wire::role_object("tool", Json::Text(arguments.clone()));
            o.set("tool_name", Json::Text(name.clone()));
            Json::Object(o)
        },
    }
}

fn serialize_all(messages: &Vec<ChatMessage>) -> (r: Json)
    ensures
        r@ == messages_json(types::messages_view(messages@)),
{
    let mut items: Vec<Json> = Vec::new();
    let mut i: usize = 0;
    while i < messages.len()
        invariant
            i <= messages@.len(),
            items@.len() == i,
            forall|j: int| 0 <= j < i ==> (#[trigger] items@[j])@ == message_json(messages@[j]@),
        decreases messages@.len() - i,
    {
        let item = serialize_message(&messages[i]);
        items.push(item);
        i = i + 1;
    }
    assert(json::items_view(items@) =~= types::messages_view(messages@).map_values(
        |m: MessageView| message_json(m),
    ));
    Json::Array(items)
}

/// The tool call in one item of an answer, given its arguments as JSON text.
pub fn read_call(tc: &Json, written: Option<String>) -> (r: Option<ToolCall>)
    ensures
        (match r {
            Some(c) => Some(c@),
            None => None,
        }) == parsed_call(tc@, text::opt_text(written)),
{
    match tc.at("function").at("name").as_text() {
        Some(name) => match written {
            Some(arguments) => Some(types::custom_call(None, name.to_owned(), arguments)),
            None => None,
        },
        None => None,
    }
}

fn write_arguments(tc: &Json) -> (r: Option<String>)
    ensures
        text::opt_text(r) == written_arguments(tc@),
{
    match tc.at("function").get("arguments") {
        Some(arguments) => json::render(arguments),
        None => None,
    }
}

/// The tool calls in a list, where there are some.
pub fn parse_tool_calls(tool_calls: &Json) -> (r: Option<Vec<ToolCall>>)
    ensures
        types::opt_calls_view(r) == openai::some_calls(parsed_calls(tool_calls@.items_or_none())),
{
    let items = match tool_calls.as_items() {
        Some(items) => items,
        None => {
            assert(tool_calls@.items_or_none() =~= Seq::empty());
            return None;
        },
    };
    let mut out: Vec<ToolCall> = Vec::new();
    let mut i: usize = 0;
    let ghost all = json::items_view(items@);
    assert(all.take(0) =~= Seq::empty());
    assert(types::calls_view(out@) =~= Seq::empty());
    while i < items.len()
        invariant
            i <= items@.len(),
            all == json::items_view(items@),
            types::calls_view(out@) == parsed_calls(all.take(i as int)),
        decreases items@.len() - i,
    {
        let tc = &items[i];
        assert(all.take(i + 1).drop_last() =~= all.take(i as int));
        assert(all.take(i + 1).last() == tc@);
        match read_call(tc, write_arguments(tc)) {
            Some(c) => {
                let ghost before = out@;
                out.push(c);
                assert(types::calls_view(out@) =~= types::calls_view(before).push(c@));
            },
            None => {},
        }
        i = i + 1;
    }
    assert(all.take(i as int) =~= all);
    assert(types::calls_view(out@).len() == out@.len());
    if out.len() == 0 {
        None
    } else {
        Some(out)
    }
}

/// Whether the estimated tokens of prompt and completion together are in range.
pub fn check_usage(request: &ChatCompletionRequest, j: &Json) -> (r: bool)
    ensures
        r == usage_in_range(*request, j@),
{
    proof {
        reveal_strlit("");
        assert(""@ =~= Seq::<char>::empty());
    }
    let content = j.at("message").at("content").text_or("");
    let prompt: u32 = types::estimate_prompt_tokens(&request.messages);
    let completion: u32 = (content.len() / 4) as u32;
    prompt as u64 + completion as u64 <= u32::MAX as u64
}

/// The response in an answer, at a moment given in milliseconds and in seconds.
pub fn build_response_at(
    request: &ChatCompletionRequest,
    j: &Json,
    model: &str,
    functions: bool,
    millis: i64,
    seconds: i64,
) -> (r: ChatCompletionResponse)
    requires
        usage_in_range(*request, j@),
    ensures
        r@ == parsed_response(*request, j@, model@, functions, millis, seconds),
{
    proof {
        reveal_strlit("");
        assert(""@ =~= Seq::<char>::empty());
    }
    let message = j.at("message");
    let content = message.at("content").text_or("");
    let tool_calls = if functions {
        parse_tool_calls(message.at("tool_calls"))
    } else {
        None
    };
    let reason = if tool_calls.is_some() {
        "tool_calls"
    } else {
        "stop"
    };
    let prompt: u32 = types::estimate_prompt_tokens(&request.messages);
    let completion: u32 = (content.len() / 4) as u32;
    let spoken = match tool_calls {
        Some(calls) => ChatMessage::Assistant {
            content: if content.unicode_len() == 0 {
                None
            } else {
                Some(content.to_owned())
            },
            tool_calls: Some(calls),
            name: None,
        },
        None => ChatMessage::assistant(content),
    };
    let mut choices: Vec<Choice> = Vec::new();
    choices.push(
        Choice {
            index: 0,
            message: spoken,
            finish_reason: Some(reason.to_owned()),
            logprobs: None,
        },
    );
    let r = ChatCompletionResponse {
        id: text::cat("ollama_", text::signed_decimal_text(millis).as_str()),
        object: "chat.completion".to_owned(),
        created: seconds as u64,
        model: model.to_owned(),
        choices,
        usage: Some(Usage::new(prompt, completion)),
        system_fingerprint: None,
    };
    assert(r@.choices =~= parsed_response(
        *request,
        j@,
        model@,
        functions,
        millis,
        seconds,
    ).choices);
    r
}

/// Whether a model whose name in lower case is this can call functions.
pub fn lower_supports_function_calling(lower: &str) -> (r: bool)
    ensures
        r == lower_calls_functions(lower@),
{
    let prefixes: Vec<&'static str> = vec![
        "llama3.1",
        "llama3.2",
        "llama3.3",
        "llama4",
        "mistral",
        "mistral-large",
        "mixtral",
        "qwen2.5",
        "qwen3",
        "deepseek-r1",
        "deepseek-coder-v2",
        "gemma2",
        "gemma3",
        "phi4",
        "command-r",
        "codestral",
        "hermes3",
        "dolphin",
    ];
    assert(prefixes@.map_values(|s: &'static str| s@) =~= known_prefixes());
    let mut i: usize = 0;
    while i < prefixes.len()
        invariant
            i <= prefixes@.len(),
            prefixes@.map_values(|s: &'static str| s@) == known_prefixes(),
            forall|k: int| 0 <= k < i ==> !text::begins(lower@, #[trigger] known_prefixes()[k]),
        decreases prefixes@.len() - i,
    {
        assert(prefixes@[i as int]@ == known_prefixes()[i as int]);
        if text::starts_with(lower, prefixes[i]) {
            return true;
        }
        i = i + 1;
    }
    assert(prefixes@.len() == known_prefixes().len());
    false
}

fn free_pricing() -> (r: ModelPricing)
    ensures
        r == free(),
{
    ModelPricing { prompt_tokens: 0, completion_tokens: 0, image_tokens: None, is_free: true }
}

/// A model that the server has, given whether it can call functions.
pub fn make_tagged_model(name: &str, size: &str, calls: bool) -> (r: FullModelInfo)
    ensures
        r@ == tagged_model(name@, size@, calls),
{
    FullModelInfo {
        id: name.to_owned(),
        name: name.to_owned(),
        provider: "ollama".to_owned(),
        description: Some(text::cat3("Ollama model (", size, ")")),
        context_window: 4096,
        max_output_tokens: 2048,
        capabilities: ModelCapabilities {
            function_calling: calls,
            vision: false,
            streaming: true,
            json_mode: false,
            caching: false,
            max_tokens: 2048,
            context_window: 4096,
            input_modalities: catalogue::one_text("text"),
            output_modalities: catalogue::one_text("text"),
            strengths: catalogue::no_texts(),
        },
        pricing: Some(free_pricing()),
        created: 0,
        available: true,
    }
}

/// What a local model is good at, by its name in lower case.
pub fn derive_strengths(lower: &str) -> (r: Vec<String>)
    ensures
        text::texts(r@) == strengths(lower@),
{
    let mut out: Vec<String> = Vec::new();
    assert(text::texts(out@) =~= Seq::empty());
    openrouter::push_if(
        &mut out,
        text::contains(lower, "coder") || text::contains(lower, "code"),
        "coding",
    );
    openrouter::push_if(
        &mut out,
        text::contains(lower, "reason") || text::contains(lower, "deepseek-r"),
        "reasoning",
    );
    out
}

/// The model that an item of the detailed list describes, given its name, as it is and in lower
/// case.
pub fn read_detailed_model(m: &Json, name: &str, lower: &str) -> (r: FullModelInfo)
    ensures
        r@ == detailed_model(m@, name@, lower@),
{
    let details = m.at("details");
    let family = details.at("family").text_or("unknown");
    let size = details.at("parameter_size").text_or("?");
    let quant = details.at("quantization_level").text_or("?");
    let sized = text::cat3(text::cat3(name, " (", size).as_str(), ", ", quant);
    FullModelInfo {
        id: name.to_owned(),
        name: text::cat(sized.as_str(), ")"),
        provider: "ollama".to_owned(),
        description: Some(text::cat3("Local Ollama (", family, ")")),
        context_window: 8192,
        max_output_tokens: 4096,
        capabilities: ModelCapabilities {
            function_calling: text::same(family, "llama") || text::same(family, "qwen2")
                || text::same(family, "mistral"),
            vision: false,
            streaming: true,
            json_mode: false,
            caching: false,
            max_tokens: 4096,
            context_window: 8192,
            input_modalities: catalogue::one_text("text"),
            output_modalities: catalogue::one_text("text"),
            strengths: derive_strengths(lower),
        },
        pricing: Some(free_pricing()),
        created: 0,
        available: true,
    }
}

fn read_detailed_models(items: &Vec<Json>) -> (r: Vec<FullModelInfo>)
    ensures
        types::models_view(r@) == detailed_models(json::items_view(items@)),
{
    let mut out: Vec<FullModelInfo> = Vec::new();
    let ghost all = json::items_view(items@);
    let mut i: usize = 0;
    assert(all.take(0) =~= Seq::empty());
    assert(types::models_view(out@) =~= Seq::empty());
    while i < items.len()
        invariant
            i <= items@.len(),
            all == json::items_view(items@),
            types::models_view(out@) == detailed_models(all.take(i as int)),
        decreases items@.len() - i,
    {
        let m = &items[i];
        assert(all.take(i + 1).drop_last() =~= all.take(i as int));
        assert(all.take(i + 1).last() == m@);
        match m.at("name").as_text() {
            Some(name) => {
                let ghost before = out@;
                let lower = outside::to_lowercase(name);
                let model = read_detailed_model(m, name, lower.as_str());
                out.push(model);
                assert(types::models_view(out@) =~= types::models_view(before).push(model@));
            },
            None => {},
        }
        i = i + 1;
    }
    assert(all.take(i as int) =~= all);
    out
}

impl OllamaProvider {
    /// The configuration.
    pub closed spec fn settings(&self) -> OllamaConfig {
        self.config
    }

    /// The model that a request is for.
    pub open spec fn model_for(&self, model: Seq<char>) -> Result<Seq<char>, ErrorView> {
        wire::resolved(model, text::opt_text(self.settings().default_model), no_model_message())
    }

    /// The request that posts a body to the chat API.
    pub open spec fn posted(&self, body: JsonView) -> HttpRequestView {
        wire::posting(self.settings().host@ + "/api/chat"@, seq![http::json_header()], body)
    }

    /// A provider for a model on a host.
    pub fn new(host: &str, model: &str) -> (r: Result<OllamaProvider, LLMError>)
        ensures
            r matches Ok(p) && p.settings().host@ == host@ && text::opt_text(
                p.settings().default_model,
            ) == Some(model@),
    {
        Ok(
            OllamaProvider {
                config: OllamaConfig {
                    host: host.to_owned(),
                    default_model: Some(model.to_owned()),
                },
            },
        )
    }

    /// A provider with this configuration, which has to name a host.
    pub fn with_config(config: OllamaConfig) -> (r: Result<OllamaProvider, LLMError>)
        ensures
            match r {
                Ok(p) => config.host@.len() != 0 && p.settings() == config,
                Err(e) => config.host@.len() == 0 && e@ == (ErrorView::ConfigurationError {
                    message: "Ollama host is required"@,
                    field: Some("host"@),
                }),
            },
    {
        if config.host.as_str().unicode_len() == 0 {
            return Err(error::configuration_error("Ollama host is required", "host"));
        }
        Ok(OllamaProvider { config })
    }

    fn resolve(&self, model: &String) -> (r: Result<String, LLMError>)
        ensures
            http::seen(r) == self.model_for(model@),
    {
        wire::resolve_model(
            model,
            &self.config.default_model,
            "No model configured for OllamaProvider — set default_model in OllamaConfig or pass a model in the request",
        )
    }

    fn chat_post(&self, body: Json) -> (r: HttpRequest)
        ensures
            r@ == self.posted(body@),
    {
        let mut headers: Vec<(String, String)> = Vec::new();
        headers.push(http::header("Content-Type", "application/json"));
        assert(http::headers_view(headers@) =~= seq![http::json_header()]);
        wire::post(text::cat(self.config.host.as_str(), "/api/chat"), headers, body)
    }

    fn plain_get(&self, path: &str) -> (r: HttpRequest)
        ensures
            r@ == wire::getting(self.settings().host@ + path@, Seq::empty()),
    {
        let headers: Vec<(String, String)> = Vec::new();
        assert(http::headers_view(headers@) =~= Seq::empty());
        wire::get(text::cat(self.config.host.as_str(), path), headers)
    }

    /// The request that asks whether the server is there.
    pub fn health_check_request(&self) -> (r: HttpRequest)
        ensures
            r@ == wire::getting(self.settings().host@ + "/api/version"@, Seq::empty()),
    {
        self.plain_get("/api/version")
    }

    /// Whether the server is there, given whether its answer was a success or why none came.
    pub fn health_check(&self, answered: Result<bool, String>) -> (r: Result<bool, LLMError>)
        ensures
            match answered {
                Ok(success) => r == Ok::<bool, LLMError>(success),
                Err(message) => r matches Err(e) && e@ == (ErrorView::HttpError {
                    message: message@,
                    status_code: None,
                    body: None,
                }),
            },
    {
        match answered {
            Ok(success) => Ok(success),
            Err(message) => Err(LLMError::HttpError { message, status_code: None, body: None }),
        }
    }

    /// The request for the models that the server has.
    pub fn list_models_request(&self) -> (r: HttpRequest)
        ensures
            r@ == wire::getting(self.settings().host@ + "/api/tags"@, Seq::empty()),
    {
        self.plain_get("/api/tags")
    }

    /// The models in the answer to a request for them.
    pub fn list_models_response(&self, outcome: TagsOutcome) -> (r: Result<
        Vec<FullModelInfo>,
        LLMError,
    >)
        ensures
            (match r {
                Ok(models) => Ok(types::models_view(models@)),
                Err(e) => Err(e@),
            }) == tags_answer(outcome),
    {
        let models = match outcome {
            TagsOutcome::Failed { failure: HttpFailure::Unsent { message } } => return Err(
                LLMError::HttpError {
                    message: text::cat("Failed to fetch Ollama models: ", message.as_str()),
                    status_code: None,
                    body: None,
                },
            ),
            TagsOutcome::Failed { failure: HttpFailure::Refused { status, code, .. } } => {
                return Err(
                    LLMError::HttpError {
                        message: text::cat("Ollama API returned status: ", status.as_str()),
                        status_code: Some(code),
                        body: None,
                    },
                );
            },
            TagsOutcome::Unreadable { message } => return Err(
                LLMError::SerializationError {
                    message: text::cat("Failed to parse Ollama response: ", message.as_str()),
                    context: Some("list_models".to_owned()),
                },
            ),
            TagsOutcome::Listed { models } => models,
        };
        let mut out: Vec<FullModelInfo> = Vec::new();
        match models {
            Some(list) => {
                let mut i: usize = 0;
                while i < list.len()
                    invariant
                        i <= list@.len(),
                        out@.len() == i,
                        forall|k: int|
                            0 <= k < i ==> (#[trigger] out@[k])@ == tagged_model(
                                list@[k].name@,
                                list@[k].size@,
                                lower_calls_functions(outside::lowercased(list@[k].name@)),
                            ),
                    decreases list@.len() - i,
                {
                    let m = &list[i];
                    let calls = self.supports_function_calling(m.name.as_str());
                    out.push(make_tagged_model(m.name.as_str(), m.size.as_str(), calls));
                    i = i + 1;
                }
                assert(types::models_view(out@) =~= tagged_models(list@));
            },
            None => {
                assert(types::models_view(out@) =~= Seq::empty());
            },
        }
        Ok(out)
    }

    /// The models in an answer, with the details that the server gives of them.
    pub fn fetch_models_response(&self, outcome: HttpOutcome) -> (r: Result<
        Vec<FullModelInfo>,
        LLMError,
    >)
        ensures
            (match r {
                Ok(models) => Ok(types::models_view(models@)),
                Err(e) => Err(e@),
            }) == detailed_answer(outcome@),
    {
        match outcome {
            HttpOutcome::Failed { failure: HttpFailure::Unsent { message } } => Err(
                LLMError::HttpError {
                    message: text::cat("Failed to fetch Ollama models: ", message.as_str()),
                    status_code: None,
                    body: None,
                },
            ),
            HttpOutcome::Failed { failure: HttpFailure::Refused { status, code, body } } => Err(
                LLMError::HttpError {
                    message: text::cat("Ollama /api/tags returned ", status.as_str()),
                    status_code: Some(code),
                    body,
                },
            ),
            HttpOutcome::Unreadable { message } => Err(
                LLMError::SerializationError {
                    message,
                    context: Some("Failed to parse Ollama models response".to_owned()),
                },
            ),
            HttpOutcome::Answered { json } => match json.at("models").as_items() {
                Some(items) => Ok(read_detailed_models(items)),
                None => Err(
                    LLMError::SerializationError {
                        message: "Missing 'models' array".to_owned(),
                        context: None,
                    },
                ),
            },
        }
    }

    /// The request for a completion, and the model that it is for.
    pub fn chat_completion_request(&self, request: &ChatCompletionRequest) -> (r: Result<
        (HttpRequest, String),
        LLMError,
    >)
        ensures
            match self.model_for(request.model@) {
                Ok(model) => r matches Ok(p) && p.0@ == self.posted(
                    chat_body(*request, model, false),
                ) && p.1@ == model,
                Err(e) => r matches Err(x) && x@ == e,
            },
    {
        let model = match self.resolve(&request.model) {
            Ok(m) => m,
            Err(e) => return Err(e),
        };
        let mut body = JsonObject::new();
        body.set("model", Json::Text(model.clone()));
        body.set("messages", serialize_all(&request.messages));
        body.set("stream", Json::Bool(false));
        wire::set_sampling(&mut body, "num_predict", "top_p", request);
        Ok((self.chat_post(Json::Object(body)), model))
    }

    /// The request for a completion with functions, and the model that it is for. A model that
    /// cannot call functions is refused.
    pub fn chat_completion_with_functions_request(
        &self,
        request: &ChatCompletionRequest,
        functions: &Vec<FunctionDefinition>,
    ) -> (r: Result<(HttpRequest, String), LLMError>)
        ensures
            match self.model_for(request.model@) {
                Ok(model) => if self.calls_functions(model) {
                    r matches Ok(p) && p.0@ == self.posted(
                        functions_body(*request, model, functions@),
                    ) && p.1@ == model
                } else {
                    r matches Err(x) && x@ == (ErrorView::UnsupportedError {
                        operation: "function_calling"@,
                        provider: Some("ollama"@),
                        model: Some(model),
                    })
                },
                Err(e) => r matches Err(x) && x@ == e,
            },
    {
        let model = match self.resolve(&request.model) {
            Ok(m) => m,
            Err(e) => return Err(e),
        };
        if !self.supports_function_calling(model.as_str()) {
            return Err(
                LLMError::UnsupportedError {
                    operation: "function_calling".to_owned(),
                    provider: Some("ollama".to_owned()),
                    model: Some(model),
                },
            );
        }
        let mut body = JsonObject::new();
        body.set("model", Json::Text(model.clone()));
        body.set("messages", serialize_all(&request.messages));
        body.set("stream", Json::Bool(false));
        body.set("tools", wire::tools(functions));
        wire::set_sampling(&mut body, "num_predict", "top_p", request);
        Ok((self.chat_post(Json::Object(body)), model))
    }

    /// The response that comes of a request for a completion, with functions or without, with the
    /// clock as it reads now.
    pub fn chat_completion_response(
        &self,
        request: &ChatCompletionRequest,
        model: &str,
        functions: bool,
        outcome: HttpOutcome,
    ) -> (r: Result<ChatCompletionResponse, LLMError>)
        requires
            outcome@ matches OutcomeView::Answered { json } ==> usage_in_range(*request, json),
        ensures
            match http::answer(outcome@, "Ollama API error: "@, unread_context(functions)) {
                Ok(j) => r matches Ok(x) && exists|millis: i64, seconds: i64|
                    x@ == #[trigger] parsed_response(
                        *request,
                        j,
                        model@,
                        functions,
                        millis,
                        seconds,
                    ),
                Err(e) => r matches Err(x) && x@ == e,
            },
    {
        let millis: i64 = outside::timestamp_millis();
        let seconds: i64 = outside::timestamp();
        self.chat_completion_response_at(request, model, functions, outcome, millis, seconds)
    }

    /// The response that comes of a request for a completion, at a moment given in milliseconds
    /// and in seconds.
    pub fn chat_completion_response_at(
        &self,
        request: &ChatCompletionRequest,
        model: &str,
        functions: bool,
        outcome: HttpOutcome,
        millis: i64,
        seconds: i64,
    ) -> (r: Result<ChatCompletionResponse, LLMError>)
        requires
            outcome@ matches OutcomeView::Answered { json } ==> usage_in_range(*request, json),
        ensures
            http::seen(r) == (match http::answer(
                outcome@,
                "Ollama API error: "@,
                unread_context(functions),
            ) {
                Ok(j) => Ok(parsed_response(*request, j, model@, functions, millis, seconds)),
                Err(e) => Err(e),
            }),
    {
        let context = if functions {
            "Failed to parse Ollama function calling response"
        } else {
            "Failed to parse Ollama response"
        };
        match http::read_answer(outcome, "Ollama API error: ", context) {
            Ok(j) => Ok(build_response_at(request, &j, model, functions, millis, seconds)),
            Err(e) => Err(e),
        }
    }

    /// The request for a streamed completion, and the stream that its answer feeds.
    pub fn chat_completion_stream_request(&self, request: &ChatCompletionRequest) -> (r: Result<
        (HttpRequest, ChunkStream),
        LLMError,
    >)
        ensures
            match self.model_for(request.model@) {
                Ok(model) => r matches Ok(p) && p.0@ == self.posted(
                    chat_body(*request, model, true),
                ) && p.1.dialect() == Dialect::Ollama && p.1.model() == model && p.1.buffer()
                    == Seq::<char>::empty() && p.1.count() == 0,
                Err(e) => r matches Err(x) && x@ == e,
            },
    {
        let model = match self.resolve(&request.model) {
            Ok(m) => m,
            Err(e) => return Err(e),
        };
        let mut body = JsonObject::new();
        body.set("model", Json::Text(model.clone()));
        body.set("messages", serialize_all(&request.messages));
        body.set("stream", Json::Bool(true));
        wire::set_sampling(&mut body, "num_predict", "top_p", request);
        Ok((self.chat_post(Json::Object(body)), ChunkStream::new(Dialect::Ollama, model.as_str())))
    }

    /// The error of a streamed completion that did not start.
    pub fn chat_completion_stream_error(&self, failure: HttpFailure) -> (r: LLMError)
        ensures
            r@ == http::failure_error(failure@, "Ollama API error: "@),
    {
        http::error_of_failure(failure, "Ollama API error: ")
    }
}

/// The rate limits of a server that sets none.
pub open spec fn generous_status() -> RateLimitStatus {
    RateLimitStatus {
        remaining: Some(999999),
        limit: Some(999999),
        tokens_remaining: None,
        tokens_limit: None,
        reset_at: None,
        retry_after: None,
    }
}

impl LLMProvider for OllamaProvider {
    open spec fn id(&self) -> Seq<char> {
        "ollama"@
    }

    open spec fn catalogue(&self) -> Seq<Seq<char>> {
        Seq::empty()
    }

    open spec fn calls_functions(&self, model: Seq<char>) -> bool {
        lower_calls_functions(outside::lowercased(model))
    }

    open spec fn prices(&self, model: Seq<char>) -> Option<ModelPricing> {
        None
    }

    open spec fn abilities(&self, model: Seq<char>) -> Option<CapabilitiesView> {
        Some(types::no_capabilities())
    }

    open spec fn limits(&self) -> Result<RateLimitStatus, ErrorView> {
        Ok(generous_status())
    }

    open spec fn cost(&self, request: ChatCompletionRequest) -> Result<EstimateView, ErrorView> {
        match self.model_for(request.model@) {
            Ok(model) => Ok(wire::estimated(request, model, 0, 0, "ollama"@)),
            Err(e) => Err(e),
        }
    }

    fn name(&self) -> (r: &str) {
        "ollama"
    }

    fn supported_models(&self) -> (r: Vec<String>) {
        catalogue::no_texts()
    }

    fn get_model_pricing(&self, model: &str) -> (r: Option<ModelPricing>) {
        None
    }

    fn get_model_capabilities(&self, model: &str) -> (r: Option<ModelCapabilities>) {
        Some(ModelCapabilities::default())
    }

    fn supports_function_calling(&self, model: &str) -> (r: bool) {
        let lower = outside::to_lowercase(model);
        lower_supports_function_calling(lower.as_str())
    }

    fn rate_limit_status(&self) -> (r: Result<RateLimitStatus, LLMError>) {
        Ok(
            RateLimitStatus {
                remaining: Some(999999),
                limit: Some(999999),
                tokens_remaining: None,
                tokens_limit: None,
                reset_at: None,
                retry_after: None,
            },
        )
    }

    fn estimate_cost(&self, request: &ChatCompletionRequest) -> (r: Result<CostEstimate, LLMError>) {
        let model = match self.resolve(&request.model) {
            Ok(m) => m,
            Err(e) => return Err(e),
        };
        Ok(wire::estimate(request, model.as_str(), 0, 0, "ollama"))
    }
}

/// Local models cost nothing.
pub proof fn law_local_models_are_free(p: OllamaProvider, request: ChatCompletionRequest)
    ensures
        p.cost(request) matches Ok(e) ==> e.input_cost == 0 && e.output_cost == 0 && e.total_cost
            == 0,
{
}

/// What is sent for a completion: the model, the messages, whether it is to be streamed, and how to
/// sample where the request says so.
pub proof fn law_chat_bodies(request: ChatCompletionRequest, model: Seq<char>, stream: bool,
    other: Seq<char>)
    requires
        other != "model"@,
        other != "messages"@,
        other != "stream"@,
        other != "num_predict"@,
        other != "temperature"@,
        other != "top_p"@,
    ensures
        ({
            let body = chat_body(request, model, stream);
            &&& body.holds("model"@, JsonView::Text(model))
            &&& body.holds("messages"@, messages_json(types::messages_view(request.messages@)))
            &&& body.holds("stream"@, JsonView::Bool(stream))
            &&& wire::carries_count(body, "num_predict"@, request.max_tokens)
            &&& wire::carries_real(body, "temperature"@, request.temperature)
            &&& wire::carries_real(body, "top_p"@, request.top_p)
            &&& !body.has(other)
        }),
{
    reveal_strlit("model");
    reveal_strlit("messages");
    reveal_strlit("stream");
    reveal_strlit("num_predict");
    reveal_strlit("temperature");
    reveal_strlit("top_p");
    assert("model"@.len() == 5);
    assert("messages"@.len() == 8);
    assert("stream"@.len() == 6);
    assert("num_predict"@.len() == 11);
    assert("temperature"@.len() == 11);
    assert("top_p"@.len() == 5);
    assert("model"@[0] != "top_p"@[0]);
    assert("num_predict"@[0] != "temperature"@[0]);
}

/// What is sent for a completion with functions is what is sent for one that is not streamed, and
/// the tools.
pub proof fn law_function_bodies(request: ChatCompletionRequest, model: Seq<char>,
    functions: Seq<FunctionDefinition>, other: Seq<char>)
    requires
        other != "model"@,
        other != "messages"@,
        other != "stream"@,
        other != "tools"@,
        other != "num_predict"@,
        other != "temperature"@,
        other != "top_p"@,
    ensures
        ({
            let body = functions_body(request, model, functions);
            &&& body.holds("model"@, JsonView::Text(model))
            &&& body.holds("messages"@, messages_json(types::messages_view(request.messages@)))
            &&& body.holds("stream"@, JsonView::Bool(false))
            &&& body.holds("tools"@, wire::tools_json(functions))
            &&& wire::carries_count(body, "num_predict"@, request.max_tokens)
            &&& wire::carries_real(body, "temperature"@, request.temperature)
            &&& wire::carries_real(body, "top_p"@, request.top_p)
            &&& !body.has(other)
        }),
{
    reveal_strlit("model");
    reveal_strlit("messages");
    reveal_strlit("stream");
    reveal_strlit("tools");
    reveal_strlit("num_predict");
    reveal_strlit("temperature");
    reveal_strlit("top_p");
    assert("model"@.len() == 5);
    assert("messages"@.len() == 8);
    assert("stream"@.len() == 6);
    assert("tools"@.len() == 5);
    assert("num_predict"@.len() == 11);
    assert("temperature"@.len() == 11);
    assert("top_p"@.len() == 5);
    assert("model"@[0] != "tools"@[0]);
    assert("model"@[0] != "top_p"@[0]);
    assert("tools"@[2] != "top_p"@[2]);
    assert("num_predict"@[0] != "temperature"@[0]);
}

/// A message is sent under its own role, results of tools and functions as those of the tool, with
/// all of its text; without calls there is no word of calls.
pub proof fn law_messages_are_sent(m: MessageView)
    ensures
        match m {
            MessageView::System { content, .. } => message_json(m).holds(
                "role"@,
                JsonView::Text("system"@),
            ) && message_json(m).holds("content"@, JsonView::Text(content)) && !message_json(m).has(
                "tool_calls"@,
            ),
            MessageView::User { content, .. } => message_json(m).holds(
                "role"@,
                JsonView::Text("user"@),
            ) && message_json(m).holds("content"@, JsonView::Text(content)) && !message_json(m).has(
                "tool_calls"@,
            ),
            MessageView::Assistant { content, tool_calls, .. } => message_json(m).holds(
                "role"@,
                JsonView::Text("assistant"@),
            ) && message_json(m).holds(
                "content"@,
                JsonView::Text(
                    if content is Some {
                        content->0
                    } else {
                        Seq::empty()
                    },
                ),
            ) && ((tool_calls matches Some(c) ==> c.len() == 0) ==> !message_json(m).has(
                "tool_calls"@,
            )),
            MessageView::Tool { tool_call_id, content } => message_json(m).holds(
                "role"@,
                JsonView::Text("tool"@),
            ) && message_json(m).holds("content"@, JsonView::Text(content)) && message_json(
                m,
            ).holds("tool_name"@, JsonView::Text(tool_call_id)),
            MessageView::Function { name, arguments } => message_json(m).holds(
                "role"@,
                JsonView::Text("tool"@),
            ) && message_json(m).holds("content"@, JsonView::Text(arguments)) && message_json(
                m,
            ).holds("tool_name"@, JsonView::Text(name)),
        },
{
    reveal_strlit("role");
    reveal_strlit("content");
    reveal_strlit("tool_calls");
    reveal_strlit("tool_name");
    assert("role"@.len() == 4);
    assert("content"@.len() == 7);
    assert("tool_calls"@.len() == 10);
    assert("tool_name"@.len() == 9);
    if let MessageView::Assistant { tool_calls: Some(c), .. } = m {
        if c.len() == 0 {
            assert(calls_json(c) =~= Seq::empty());
        }
    }
}

/// One more call of a custom function is sent after the others, with its name and with its
/// arguments as JSON, an empty object where they are none. Calls of other kinds are not sent.
pub proof fn law_calls_are_sent(
    content: Option<Seq<char>>,
    name: Option<Seq<char>>,
    calls: Seq<CallView>,
    call: CallView,
    sent: Seq<JsonView>,
)
    requires
        message_json(
            (MessageView::Assistant { content, tool_calls: Some(calls), name }),
        ).lists("tool_calls"@, sent),
    ensures
        ({
            let after = message_json(
                (MessageView::Assistant { content, tool_calls: Some(calls.push(call)), name }),
            );
            match call {
                CallView::Custom { id, name: called, arguments } => exists|
                    item: JsonView,
                    function: JsonView,
                |
                    #![trigger item.holds("function"@, function)]
                    after.holds("tool_calls"@, JsonView::Array(sent.push(item))) && item.holds(
                        "function"@,
                        function,
                    ) && function.holds("name"@, JsonView::Text(called)) && (json::json_parsed(
                        arguments,
                    ) matches Some(j) ==> function.holds("arguments"@, j)) && (json::json_parsed(
                        arguments,
                    ) is None ==> function.holds("arguments"@, JsonView::Object(Map::empty()))),
                _ => after.lists("tool_calls"@, sent) && (sent.len() == 0 ==> !after.has(
                    "tool_calls"@,
                )),
            }
        }),
{
    reveal_strlit("role");
    reveal_strlit("content");
    reveal_strlit("name");
    reveal_strlit("tool_calls");
    reveal_strlit("function");
    reveal_strlit("arguments");
    assert("role"@.len() == 4);
    assert("content"@.len() == 7);
    assert("name"@.len() == 4);
    assert("tool_calls"@.len() == 10);
    assert("function"@.len() == 8);
    assert("arguments"@.len() == 9);
    assert("role"@[0] != "name"@[0]);
    let before = message_json(MessageView::Assistant { content, tool_calls: Some(calls), name });
    assert(calls.push(call).drop_last() =~= calls);
    if calls_json(calls).len() == 0 {
        assert(calls_json(calls) =~= sent);
    } else {
        assert(before.holds("tool_calls"@, JsonView::Array(calls_json(calls))));
        assert(calls_json(calls) == sent);
    }
    match call {
        CallView::Custom { id, name: called, arguments } => {
            let item = call_json(call)->Some_0;
            let function = JsonView::Object(
                Map::empty().insert("name"@, JsonView::Text(called)).insert(
                    "arguments"@,
                    wire::arguments_value(json::json_parsed(arguments)),
                ),
            );
            assert(calls_json(calls.push(call)) == sent.push(item));
            assert(item.holds("function"@, function));
        },
        _ => {},
    }
}

/// The messages are sent one by one, in their order.
pub proof fn law_conversations_are_sent(messages: Seq<MessageView>, m: MessageView)
    ensures
        messages_json(messages) matches JsonView::Array(items) && items.len() == messages.len()
            && messages_json(messages.push(m)) == JsonView::Array(items.push(message_json(m))),
{
    assert(messages.push(m).map_values(|m: MessageView| message_json(m)) =~= messages.map_values(
        |m: MessageView| message_json(m),
    ).push(message_json(m)));
}

/// An answer is one choice with the text that stands in its message. Its usage is a quarter of the
/// bytes of that text, rounded down, behind the estimate of the request's messages. Without
/// functions, or without calls in the answer, it ends of itself; otherwise with calls, and an empty
/// text is none.
pub proof fn law_answers_are_read(
    request: ChatCompletionRequest,
    j: JsonView,
    model: Seq<char>,
    functions: bool,
    millis: i64,
    seconds: i64,
    message: JsonView,
    words: Option<Seq<char>>,
)
    requires
        usage_in_range(request, j),
        j.offers("message"@, message),
        message.says("content"@, words),
        words matches Some(w) ==> vstd::utf8::encode_utf8(w).len() <= u32::MAX,
    ensures
        ({
            let r = parsed_response(request, j, model, functions, millis, seconds);
            let said = if words is Some {
                words->0
            } else {
                Seq::empty()
            };
            let prompt = types::prompt_tokens(types::messages_view(request.messages@));
            &&& r.model == model
            &&& r.created == seconds as u64
            &&& r.object == "chat.completion"@
            &&& r.id == "ollama_"@ + text::signed_decimal(millis as int)
            &&& r.system_fingerprint is None
            &&& r.choices.len() == 1
            &&& r.choices[0].index == 0
            &&& r.choices[0].logprobs is None
            &&& r.usage matches Some(u) && u.prompt_tokens == prompt && u.completion_tokens
                == vstd::utf8::encode_utf8(said).len() as int / 4 && u.total_tokens == prompt
                + u.completion_tokens
            &&& r.choices[0].message matches MessageView::Assistant { content, tool_calls, name }
                && name is None && (tool_calls is None ==> content == Some(said)
                && r.choices[0].finish_reason == Some("stop"@)) && (tool_calls is Some ==> functions
                && r.choices[0].finish_reason == Some("tool_calls"@) && content == (if said.len()
                == 0 {
                None
            } else {
                Some(said)
            })) && (message.lists("tool_calls"@, Seq::empty()) ==> tool_calls is None)
        }),
{
    if words is None {
        assert(vstd::utf8::encode_utf8(Seq::empty()).len() == 0) by {
            reveal_with_fuel(vstd::utf8::encode_utf8, 1);
        }
    }
    if message.lists("tool_calls"@, Seq::empty()) {
        assert(parsed_calls(Seq::empty()) =~= Seq::empty());
    }
}

/// One more call with a name and arguments is read after the others, with the name and the
/// arguments as JSON text; an item without one of them is passed over.
pub proof fn law_calls_are_read(
    request: ChatCompletionRequest,
    j: JsonView,
    k: JsonView,
    model: Seq<char>,
    millis: i64,
    seconds: i64,
    message: JsonView,
    longer: JsonView,
    items: Seq<JsonView>,
    item: JsonView,
    function: JsonView,
    name: Option<Seq<char>>,
    arguments: JsonView,
)
    requires
        j.offers("message"@, message),
        k.offers("message"@, longer),
        message.lists("tool_calls"@, items),
        longer.lists("tool_calls"@, items.push(item)),
        item.offers("function"@, function),
        function.says("name"@, name),
    ensures
        parsed_response(request, j, model, true, millis, seconds).choices[0].message
            matches MessageView::Assistant { tool_calls: before, .. } && (parsed_response(
            request,
            k,
            model,
            true,
            millis,
            seconds,
        ).choices[0].message matches MessageView::Assistant { tool_calls: after, .. } && {
            &&& name is Some && function.holds("arguments"@, arguments) && json::json_rendered(
                arguments,
            ) is Some ==> after == Some(
                (if before is Some {
                    before->0
                } else {
                    Seq::empty()
                }).push(
                    CallView::Custom {
                        id: None,
                        name: name->0,
                        arguments: json::json_rendered(arguments)->0,
                    },
                ),
            )
            &&& name is None || !function.has("arguments"@) ==> after == before
            &&& function.holds("arguments"@, arguments) && json::json_rendered(arguments) is None
                ==> after == before
        }),
{
    assert(items.push(item).drop_last() =~= items);
    if items.len() == 0 {
        assert(message.field("tool_calls"@).items_or_none() =~= items);
    }
    if parsed_calls(items).len() == 0 {
        assert(parsed_calls(items) =~= Seq::empty());
    }
}

/// What a request is estimated to cost: the tokens of its messages and the tokens that it allows,
/// or a thousand, each at the price of the model's kind.
pub proof fn law_estimates(p: OllamaProvider, request: ChatCompletionRequest, m: Seq<char>)
    requires
        p.model_for(request.model@) == Ok::<Seq<char>, ErrorView>(m),
    ensures
        p.cost(request) matches Ok(e) && {
            &&& e.model == m
            &&& e.provider == "ollama"@
            &&& e.input_tokens == types::prompt_tokens(types::messages_view(request.messages@))
            &&& e.output_tokens == (match request.max_tokens {
                Some(n) => n,
                None => 1000u32,
            })
            &&& e.total_cost == e.input_cost + e.output_cost
            &&& e.input_cost == e.input_tokens * 0 && e.output_cost == e.output_tokens * 0
        },
{
    wire::law_estimates_add_up(request, m, 0, 0, "ollama"@);
}

/// A request is for the model that it names, else for the default model, and fails where there is
/// no default.
pub proof fn law_models_are_resolved(p: OllamaProvider, model: Seq<char>)
    ensures
        model.len() > 0 ==> p.model_for(model) == Ok::<Seq<char>, ErrorView>(model),
        model.len() == 0 ==> match p.settings().default_model {
            Some(d) => p.model_for(model) == Ok::<Seq<char>, ErrorView>(d@),
            None => p.model_for(model) == Err::<Seq<char>, ErrorView>(
                (ErrorView::ConfigurationError {
                    message: "No model configured for OllamaProvider — set default_model in OllamaConfig or pass a model in the request"@,
                    field: Some("default_model"@),
                }),
            ),
        },
{
}

/// A body is posted to the chat API of the host.
pub proof fn law_requests_are_posted(p: OllamaProvider, body: JsonView)
    ensures
        ({
            let r = p.posted(body);
            &&& r.method == http::Method::Post
            &&& r.url == p.settings().host@ + "/api/chat"@
            &&& r.headers == seq![("Content-Type"@, "application/json"@)]
            &&& r.body == Some(body)
        }),
{
}

/// The provider is Ollama. It knows no model without asking; a model calls functions where its name
/// in lower case begins like one of those that are known to. There is always room for more
/// requests, and nothing is said of prices and abilities.
pub proof fn law_what_is_known(p: OllamaProvider, model: Seq<char>)
    ensures
        p.id() == "ollama"@,
        p.catalogue().len() == 0,
        ({
            let lower = outside::lowercased(model);
            p.calls_functions(model) <==> (text::begins(lower, "llama3.1"@) || text::begins(
                lower,
                "llama3.2"@,
            ) || text::begins(lower, "llama3.3"@) || text::begins(lower, "llama4"@)
                || text::begins(lower, "mistral"@) || text::begins(lower, "mistral-large"@)
                || text::begins(lower, "mixtral"@) || text::begins(lower, "qwen2.5"@)
                || text::begins(lower, "qwen3"@) || text::begins(lower, "deepseek-r1"@)
                || text::begins(lower, "deepseek-coder-v2"@) || text::begins(lower, "gemma2"@)
                || text::begins(lower, "gemma3"@) || text::begins(lower, "phi4"@) || text::begins(
                lower,
                "command-r"@,
            ) || text::begins(lower, "codestral"@) || text::begins(lower, "hermes3"@)
                || text::begins(lower, "dolphin"@))
        }),
        p.prices(model) is None,
        p.limits() matches Ok(s) && s.remaining == Some(999999u64) && s.limit == Some(999999u64)
            && s.tokens_remaining is None && s.tokens_limit is None && s.reset_at is None
            && s.retry_after is None,
        p.abilities(model) matches Some(a) && !a.function_calling && !a.vision && !a.streaming
            && !a.json_mode && !a.caching && a.max_tokens == 0 && a.context_window == 0,
{
    let k = known_prefixes();
    assert(k[0] == "llama3.1"@);
    assert(k[1] == "llama3.2"@);
    assert(k[2] == "llama3.3"@);
    assert(k[3] == "llama4"@);
    assert(k[4] == "mistral"@);
    assert(k[5] == "mistral-large"@);
    assert(k[6] == "mixtral"@);
    assert(k[7] == "qwen2.5"@);
    assert(k[8] == "qwen3"@);
    assert(k[9] == "deepseek-r1"@);
    assert(k[10] == "deepseek-coder-v2"@);
    assert(k[11] == "gemma2"@);
    assert(k[12] == "gemma3"@);
    assert(k[13] == "phi4"@);
    assert(k[14] == "command-r"@);
    assert(k[15] == "codestral"@);
    assert(k[16] == "hermes3"@);
    assert(k[17] == "dolphin"@);
}

/// The list in an answer is made of all its items. Without an answer, or without a list in it, the
/// error says what went wrong.
pub proof fn law_lists_are_read(
    j: JsonView,
    items: Seq<JsonView>,
    words: Seq<char>,
    code: u16,
    body: Option<Seq<char>>,
)
    ensures
        j.holds("models"@, JsonView::Array(items)) ==> detailed_answer(
            (OutcomeView::Answered { json: j }),
        ) == Ok::<Seq<FullModelInfoView>, ErrorView>(detailed_models(items)),
        !j.has_list("models"@) ==> detailed_answer((OutcomeView::Answered { json: j }))
            == Err::<Seq<FullModelInfoView>, ErrorView>(
            (ErrorView::SerializationError { message: "Missing 'models' array"@, context: None }),
        ),
        detailed_answer(
            (OutcomeView::Failed { failure: FailureView::Unsent { message: words } }),
        ) == Err::<Seq<FullModelInfoView>, ErrorView>(
            (ErrorView::HttpError {
                message: "Failed to fetch Ollama models: "@ + words,
                status_code: None,
                body: None,
            }),
        ),
        detailed_answer(
            (OutcomeView::Failed { failure: FailureView::Refused { status: words, code, body } }),
        ) == Err::<Seq<FullModelInfoView>, ErrorView>(
            (ErrorView::HttpError {
                message: "Ollama /api/tags returned "@ + words,
                status_code: Some(code),
                body,
            }),
        ),
        detailed_answer((OutcomeView::Unreadable { message: words }))
            == Err::<Seq<FullModelInfoView>, ErrorView>(
            (ErrorView::SerializationError {
                message: words,
                context: Some("Failed to parse Ollama models response"@),
            }),
        ),
{
}

/// The model is free, streams, takes and gives text, and has these limits.
pub open spec fn is_local(m: FullModelInfoView, window: u32, output: u32) -> bool {
    &&& m.provider == "ollama"@
    &&& m.context_window == window
    &&& m.max_output_tokens == output
    &&& m.capabilities.context_window == window
    &&& m.capabilities.max_tokens == output
    &&& m.capabilities.streaming
    &&& !m.capabilities.vision
    &&& !m.capabilities.json_mode
    &&& !m.capabilities.caching
    &&& m.capabilities.input_modalities == seq!["text"@]
    &&& m.capabilities.output_modalities == seq!["text"@]
    &&& m.pricing matches Some(p) && p.is_free && p.prompt_tokens == 0 && p.completion_tokens == 0
        && p.image_tokens is None
    &&& m.created == 0
    &&& m.available
}

/// Each model that the server has is listed, in the server's order, under its name and with its
/// size; it calls functions where the provider says so of its name.
pub proof fn law_tagged_models(p: OllamaProvider, models: Vec<OllamaModel>, i: int)
    requires
        0 <= i < models@.len(),
    ensures
        tags_answer((TagsOutcome::Listed { models: Some(models) })) matches Ok(all) && all.len()
            == models@.len() && all[i].id == models@[i].name@ && all[i].name == models@[i].name@
            && all[i].description == Some("Ollama model ("@ + models@[i].size@ + ")"@) && is_local(
            all[i],
            4096,
            2048,
        ) && all[i].capabilities.strengths.len() == 0 && all[i].capabilities.function_calling
            == p.calls_functions(models@[i].name@),
        tags_answer((TagsOutcome::Listed { models: None })) == Ok::<
            Seq<FullModelInfoView>,
            ErrorView,
        >(Seq::empty()),
{
}

/// Where the server gives no list, the error says what went wrong.
pub proof fn law_no_tags(failure: HttpFailure, message: String)
    ensures
        tags_answer((TagsOutcome::Failed { failure })) matches Err(ErrorView::HttpError {
            message: m,
            status_code,
            body,
        }) && body is None && match failure {
            HttpFailure::Unsent { message: words } => status_code is None && m
                == "Failed to fetch Ollama models: "@ + words@,
            HttpFailure::Refused { status, code, .. } => status_code == Some(code) && m
                == "Ollama API returned status: "@ + status@,
        },
        tags_answer((TagsOutcome::Unreadable { message })) matches Err(
            ErrorView::SerializationError { message: m, context },
        ) && m == "Failed to parse Ollama response: "@ + message@ && context == Some(
            "list_models"@,
        ),
{
}

/// One more item with a name is one more model at the end of the detailed list, with its family,
/// size and quantization as they stand there. It calls functions where its family is `llama`,
/// `qwen2` or `mistral`, and it is good at coding and at reasoning where its name says so. An item
/// without a name is passed over.
pub proof fn law_detailed_models(
    items: Seq<JsonView>,
    item: JsonView,
    name: Seq<char>,
    details: JsonView,
    family: Option<Seq<char>>,
    size: Option<Seq<char>>,
    level: Option<Seq<char>>,
)
    requires
        item.offers("details"@, details),
        details.says("family"@, family),
        details.says("parameter_size"@, size),
        details.says("quantization_level"@, level),
    ensures
        detailed_models(Seq::<JsonView>::empty()) == Seq::<FullModelInfoView>::empty(),
        item.says("name"@, None) ==> detailed_models(items.push(item)) == detailed_models(items),
        item.says("name"@, Some(name)) ==> ({
            let all = detailed_models(items.push(item));
            let m = all.last();
            let lower = outside::lowercased(name);
            let codes = text::occurs(lower, "coder"@) || text::occurs(lower, "code"@);
            let reasons = text::occurs(lower, "reason"@) || text::occurs(lower, "deepseek-r"@);
            &&& all.len() == detailed_models(items).len() + 1
            &&& all.drop_last() == detailed_models(items)
            &&& is_local(m, 8192, 4096)
            &&& m.id == name
            &&& m.name == name + " ("@ + (if size is Some {
                size->0
            } else {
                "?"@
            }) + ", "@ + (if level is Some {
                level->0
            } else {
                "?"@
            }) + ")"@
            &&& m.description == Some(
                "Local Ollama ("@ + (if family is Some {
                    family->0
                } else {
                    "unknown"@
                }) + ")"@,
            )
            &&& m.capabilities.function_calling <==> family == Some("llama"@) || family == Some(
                "qwen2"@,
            ) || family == Some("mistral"@)
            &&& m.capabilities.strengths == (if codes && reasons {
                seq!["coding"@, "reasoning"@]
            } else if codes {
                seq!["coding"@]
            } else if reasons {
                seq!["reasoning"@]
            } else {
                Seq::empty()
            })
        }),
{
    reveal_strlit("unknown");
    reveal_strlit("llama");
    reveal_strlit("qwen2");
    reveal_strlit("mistral");
    assert("unknown"@.len() == 7);
    assert("llama"@.len() == 5);
    assert("qwen2"@.len() == 5);
    assert("mistral"@.len() == 7);
    assert("unknown"@[0] != "mistral"@[0]);
    assert("llama"@[0] != "qwen2"@[0]);
    assert(items.push(item).drop_last() =~= items);
    if item.says("name"@, Some(name)) {
        let lower = outside::lowercased(name);
        assert(strengths(lower) =~= detailed_models(
            items.push(item)).last().capabilities.strengths);
        assert(Seq::<Seq<char>>::empty().push("coding"@) =~= seq!["coding"@]);
        assert(Seq::<Seq<char>>::empty().push("reasoning"@) =~= seq!["reasoning"@]);
        assert(seq!["coding"@].push("reasoning"@) =~= seq!["coding"@, "reasoning"@]);
    }
}

/// What cannot be read is called by what was asked for.
pub proof fn law_unread_answers()
    ensures
        unread_context(false) == "Failed to parse Ollama response"@,
        unread_context(true) == "Failed to parse Ollama function calling response"@,
{
}

/// The estimate of an answer's usage is in range if and only if the tokens of the request's
/// messages and a quarter of the bytes of the answer's text fit together.
pub proof fn law_usage_range(
    request: ChatCompletionRequest,
    j: JsonView,
    message: JsonView,
    words: Option<Seq<char>>,
)
    requires
        j.offers("message"@, message),
        message.says("content"@, words),
        words matches Some(w) ==> vstd::utf8::encode_utf8(w).len() <= u32::MAX,
    ensures
        usage_in_range(request, j) <==> types::prompt_tokens(
            types::messages_view(request.messages@),
        ) + (match words {
            Some(w) => vstd::utf8::encode_utf8(w).len() as int / 4,
            None => 0,
        }) <= u32::MAX,
{
    assert(vstd::utf8::encode_utf8(Seq::empty()).len() == 0) by {
        reveal_with_fuel(vstd::utf8::encode_utf8, 1);
    }
}

} // verus!
