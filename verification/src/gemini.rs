//! The Gemini provider.

use crate::catalogue;
use crate::cost_tracker::{CostEstimate, EstimateView};
use crate::error;
use crate::error::{ErrorView, LLMError};
use crate::http;
use crate::http::{
    FailureView, HttpFailure, HttpOutcome, HttpRequest, HttpRequestView, OutcomeView,
};
use crate::json;
use crate::json::{Json, JsonObject, JsonView};
use crate::outside;
use crate::provider::LLMProvider;
use crate::rate_limiter;
use crate::rate_limiter::RateLimitStatus;
use crate::streaming::{ChunkStream, Dialect};
use crate::text;
use crate::types;
use crate::types::{
    CallView, CapabilitiesView, ChatCompletionRequest, ChatCompletionResponse, ChatMessage, Choice,
    ChoiceView, FullModelInfo, FullModelInfoView, FunctionCall, FunctionDefinition, MessageView,
    ModelCapabilities, ModelPricing, ResponseView, ToolCall, Usage,
};
use crate::wire;
use vstd::prelude::*;

verus! {

/// Gemini configuration.
#[derive(Debug, Clone)]
pub struct GeminiConfig {
    pub api_key: String,
    pub default_model: Option<String>,
    pub base_url: Option<String>,
}

impl Default for GeminiConfig {
    fn default() -> (r: GeminiConfig)
        ensures
            r.api_key@ == Seq::<char>::empty(),
            r.default_model is None,
            r.base_url is None,
    {
        GeminiConfig { api_key: String::new(), default_model: None, base_url: None }
    }
}

/// The Gemini provider.
#[derive(Debug)]
pub struct GeminiProvider {
    config: GeminiConfig,
}

/// An object with one member.
pub open spec fn single(key: Seq<char>, value: JsonView) -> JsonView {
    JsonView::Object(Map::empty().insert(key, value))
}

/// A part with text.
pub open spec fn text_part(s: Seq<char>) -> JsonView {
    single("text"@, JsonView::Text(s))
}

/// A content: a role and its parts.
pub open spec fn content_json(role: Seq<char>, parts: Seq<JsonView>) -> JsonView {
    JsonView::Object(
        Map::empty().insert("role"@, JsonView::Text(role)).insert(
            "parts"@,
            JsonView::Array(parts),
        ),
    )
}

/// The part of a tool call. Only calls of custom functions have one.
pub open spec fn call_part(call: CallView) -> Option<JsonView> {
    match call {
        CallView::Custom { id, name, arguments } => Some(
            single(
                "functionCall"@,
                JsonView::Object(
                    Map::empty().insert("name"@, JsonView::Text(name)).insert(
                        "args"@,
                        wire::arguments_value(json::json_parsed(arguments)),
                    ),
                ),
            ),
        ),
        _ => None,
    }
}

/// The parts of some tool calls, in order.
pub open spec fn call_parts(calls: Seq<CallView>) -> Seq<JsonView>
    decreases calls.len(),
{
    if calls.len() == 0 {
        Seq::empty()
    } else {
        wire::and_then_one(call_parts(calls.drop_last()), call_part(calls.last()))
    }
}

/// The parts of an assistant message: its text where it has some, then its calls. A message that
/// would have no parts has one with an empty text.
pub open spec fn assistant_parts(content: Option<Seq<char>>, calls: Option<Seq<CallView>>) -> Seq<
    JsonView,
> {
    let opening = match content {
        Some(t) => if t.len() == 0 {
            Seq::empty()
        } else {
            seq![text_part(t)]
        },
        None => Seq::empty(),
    };
    let parts = match calls {
        Some(c) => opening + call_parts(c),
        None => opening,
    };
    if parts.len() == 0 {
        seq![text_part(Seq::empty())]
    } else {
        parts
    }
}

/// A part with the response of a function.
pub open spec fn response_part(name: Seq<char>, content: Seq<char>) -> JsonView {
    single(
        "functionResponse"@,
        JsonView::Object(
            Map::empty().insert("name"@, JsonView::Text(name)).insert(
                "response"@,
                single("content"@, JsonView::Text(content)),
            ),
        ),
    )
}

/// A message as a content.
pub open spec fn message_content(m: MessageView) -> JsonView {
    match m {
        MessageView::System { content, .. } => content_json("system"@, seq![text_part(content)]),
        MessageView::User { content, .. } => content_json("user"@, seq![text_part(content)]),
        MessageView::Assistant { content, tool_calls, .. } => content_json(
            "model"@,
            assistant_parts(content, tool_calls),
        ),
        MessageView::Tool { tool_call_id, content } => content_json(
            "user"@,
            seq![response_part(tool_call_id, content)],
        ),
        MessageView::Function { name, arguments } => content_json(
            "user"@,
            seq![response_part(name, arguments)],
        ),
    }
}

/// The messages as contents.
pub open spec fn contents(messages: Seq<MessageView>) -> JsonView {
    JsonView::Array(messages.map_values(|m: MessageView| message_content(m)))
}

/// The contents of the messages that are no system messages, in order.
pub open spec fn plain_contents(messages: Seq<MessageView>) -> Seq<JsonView>
    decreases messages.len(),
{
    if messages.len() == 0 {
        Seq::empty()
    } else {
        wire::and_then_one(
            plain_contents(messages.drop_last()),
            if messages.last() is System {
                None
            } else {
                Some(message_content(messages.last()))
            },
        )
    }
}

/// The parts of the system messages, in order.
pub open spec fn system_parts(messages: Seq<MessageView>) -> Seq<JsonView>
    decreases messages.len(),
{
    if messages.len() == 0 {
        Seq::empty()
    } else {
        wire::and_then_one(
            system_parts(messages.drop_last()),
            match messages.last() {
                MessageView::System { content, .. } => Some(text_part(content)),
                _ => None,
            },
        )
    }
}

/// The body of a request for a completion.
pub open spec fn chat_body(request: ChatCompletionRequest) -> JsonView {
    JsonView::Object(
        wire::with_sampling(
            Map::empty().insert(
                "contents"@,
                contents(types::messages_view(request.messages@)),
            ),
            "maxOutputTokens"@,
            "topP"@,
            request,
        ),
    )
}

/// The body of a request for a streamed completion.
pub open spec fn stream_body(request: ChatCompletionRequest) -> JsonView {
    JsonView::Object(
        wire::with_sampling(
            Map::empty().insert(
                "contents"@,
                contents(types::messages_view(request.messages@)),
            ).insert("stream"@, JsonView::Bool(true)),
            "maxOutputTokens"@,
            "topP"@,
            request,
        ),
    )
}

/// The functions as declarations.
pub open spec fn declarations(functions: Seq<FunctionDefinition>) -> JsonView {
    JsonView::Array(functions.map_values(|f: FunctionDefinition| wire::function_json(f)))
}

/// The body of a request for a completion with functions. System messages stand apart from the
/// others.
pub open spec fn functions_body(
    request: ChatCompletionRequest,
    functions: Seq<FunctionDefinition>,
) -> JsonView {
    let messages = types::messages_view(request.messages@);
    let system = system_parts(messages);
    JsonView::Object(
        wire::with_sampling(
            json::with_optional(
                Map::empty().insert("contents"@, JsonView::Array(plain_contents(messages))).insert(
                    "tools"@,
                    JsonView::Array(seq![single("functionDeclarations"@, declarations(functions))]),
                ).insert(
                    "toolConfig"@,
                    single("functionCallingConfig"@, single("mode"@, JsonView::Text("AUTO"@))),
                ),
                "systemInstruction"@,
                if system.len() == 0 {
                    None
                } else {
                    Some(single("parts"@, JsonView::Array(system)))
                },
            ),
            "maxOutputTokens"@,
            "topP"@,
            request,
        ),
    )
}

/// The texts of some parts, in order.
pub open spec fn part_texts(parts: Seq<JsonView>) -> Seq<Seq<char>>
    decreases parts.len(),
{
    if parts.len() == 0 {
        Seq::empty()
    } else {
        wire::and_then_one(part_texts(parts.drop_last()), parts.last().field("text"@).text())
    }
}

/// The arguments in a function call; an empty object where it has none.
pub open spec fn call_args(fc: JsonView) -> JsonView {
    match fc.lookup("args"@) {
        Some(args) => args,
        None => JsonView::Object(Map::empty()),
    }
}

/// A function call; `written` is its arguments as JSON text.
pub open spec fn made_call(fc: JsonView, written: Option<Seq<char>>) -> CallView {
    CallView::Custom {
        id: None,
        name: text::text_or(fc.field("name"@).text(), Seq::empty()),
        arguments: text::text_or(written, "{}"@),
    }
}

/// The function call of a part.
pub open spec fn part_call(part: JsonView) -> Option<CallView> {
    match part.lookup("functionCall"@) {
        Some(fc) => Some(made_call(fc, json::json_rendered(call_args(fc)))),
        None => None,
    }
}

/// The function calls of some parts, in order.
pub open spec fn part_calls(parts: Seq<JsonView>) -> Seq<CallView>
    decreases parts.len(),
{
    if parts.len() == 0 {
        Seq::empty()
    } else {
        wire::and_then_one(part_calls(parts.drop_last()), part_call(parts.last()))
    }
}

/// Why an answer ends; `lower` is the reason in lower case.
pub open spec fn normalized(raw: Option<Seq<char>>, has_calls: bool, lower: Seq<char>) -> Option<
    Seq<char>,
> {
    match raw {
        Some(reason) => if reason == "STOP"@ {
            if has_calls {
                Some("tool_calls"@)
            } else {
                Some("stop"@)
            }
        } else if reason == "SAFETY"@ {
            Some("content_filter"@)
        } else {
            Some(lower)
        },
        None => None,
    }
}

/// A candidate of an answer as a choice.
pub open spec fn parsed_choice(index: int, candidate: JsonView) -> ChoiceView {
    let parts = candidate.field("content"@).field("parts"@).items_or_none();
    let reason = candidate.field("finishReason"@).text();
    ChoiceView {
        index: index as u32,
        message: wire::assembled(part_texts(parts), part_calls(parts)),
        finish_reason: normalized(
            reason,
            part_calls(parts).len() != 0,
            outside::lowercased(text::text_or(reason, Seq::empty())),
        ),
        logprobs: None,
    }
}

/// The candidates of an answer as choices.
pub open spec fn parsed_choices(items: Seq<JsonView>) -> Seq<ChoiceView> {
    Seq::new(items.len(), |i: int| parsed_choice(i, items[i]))
}

/// The sum of the counts in the usage statistics of an answer is in range.
pub open spec fn usage_in_range(j: JsonView) -> bool {
    let u = j.field("usageMetadata"@);
    (u.field("promptTokenCount"@).count_or_zero() as u32) + (u.field(
        "candidatesTokenCount"@,
    ).count_or_zero() as u32) <= u32::MAX
}

/// The usage statistics of an answer.
pub open spec fn usage_of(j: JsonView) -> Option<Usage> {
    match j.lookup("usageMetadata"@) {
        Some(u) => {
            let prompt = u.field("promptTokenCount"@).count_or_zero() as u32;
            let completion = u.field("candidatesTokenCount"@).count_or_zero() as u32;
            Some(
                Usage {
                    prompt_tokens: prompt,
                    completion_tokens: completion,
                    total_tokens: (prompt + completion) as u32,
                },
            )
        },
        None => None,
    }
}

/// The response in an answer, at a moment given in milliseconds and in seconds.
pub open spec fn parsed_response(
    j: JsonView,
    model: Seq<char>,
    millis: i64,
    seconds: i64,
) -> ResponseView {
    ResponseView {
        id: "gemini_"@ + text::signed_decimal(millis as int),
        object: "chat.completion"@,
        created: seconds as u64,
        model,
        choices: parsed_choices(j.field("candidates"@).items_or_none()),
        usage: usage_of(j),
        system_fingerprint: None,
    }
}

/// The model that an item of the live list describes. An item without a name is none.
pub open spec fn listed_model(m: JsonView) -> Option<FullModelInfoView> {
    match m.field("name"@).text() {
        Some(name) => {
            let id = text::sans_prefix(name, "models/"@);
            let window = m.field("inputTokenLimit"@).count_or_zero() as u32;
            let output = m.field("outputTokenLimit"@).count_or_zero() as u32;
            let vision = text::occurs(id, "pro"@) || text::occurs(id, "flash"@);
            Some(
                FullModelInfoView {
                    id,
                    name: text::text_or(m.field("displayName"@).text(), id),
                    provider: "gemini"@,
                    description: m.field("description"@).text(),
                    context_window: window,
                    max_output_tokens: output,
                    capabilities: CapabilitiesView {
                        function_calling: true,
                        vision,
                        streaming: true,
                        json_mode: true,
                        caching: false,
                        max_tokens: output,
                        context_window: window,
                        input_modalities: if vision {
                            seq!["text"@, "image"@]
                        } else {
                            seq!["text"@]
                        },
                        output_modalities: seq!["text"@],
                        strengths: Seq::empty(),
                    },
                    pricing: Some(
                        ModelPricing {
                            prompt_tokens: 0,
                            completion_tokens: 0,
                            image_tokens: None,
                            is_free: true,
                        },
                    ),
                    created: 0,
                    available: true,
                },
            )
        },
        None => None,
    }
}

/// The models that the items of the live list describe.
pub open spec fn listed_models(items: Seq<JsonView>) -> Seq<FullModelInfoView>
    decreases items.len(),
{
    if items.len() == 0 {
        Seq::empty()
    } else {
        wire::and_then_one(listed_models(items.drop_last()), listed_model(items.last()))
    }
}

/// The models in the answer to a request for the live list, or the error in their place.
pub open spec fn models_answer(outcome: OutcomeView) -> Result<Seq<FullModelInfoView>, ErrorView> {
    match outcome {
        OutcomeView::Failed { failure: FailureView::Unsent { message } } => Err(
            ErrorView::HttpError {
                message: "Failed to fetch Gemini models: "@ + message,
                status_code: None,
                body: None,
            },
        ),
        OutcomeView::Failed { failure: FailureView::Refused { status, code, body } } => Err(
            ErrorView::HttpError {
                message: "Gemini /models returned "@ + status,
                status_code: Some(code),
                body,
            },
        ),
        OutcomeView::Unreadable { message } => Err(
            ErrorView::SerializationError {
                message,
                context: Some("Failed to parse Gemini models"@),
            },
        ),
        OutcomeView::Answered { json } => match json.field("models"@).items() {
            Some(items) => Ok(listed_models(items)),
            None => Err(
                ErrorView::SerializationError {
                    message: "Missing 'models' array"@,
                    context: None,
                },
            ),
        },
    }
}

/// What is said where neither the request nor the configuration names a model.
pub open spec fn no_model_message() -> Seq<char> {
    "No model configured for GeminiProvider — set default_model in GeminiConfig or pass a model in the request"@
}

/// A model whose name in lower case is this can call functions.
pub open spec fn lower_calls_functions(lower: Seq<char>) -> bool {
    text::occurs(lower, "1.5"@) || text::occurs(lower, "2.0"@) || text::occurs(lower, "flash"@)
        || text::occurs(lower, "gemini-pro"@)
}

/// The prices of input and output tokens that estimates go by.
pub open spec fn estimate_prices(model: Seq<char>) -> (u64, u64) {
    if text::occurs(model, "flash"@) {
        (75_000, 300_000)
    } else if text::occurs(model, "pro"@) {
        (1_250_000, 5_000_000)
    } else if text::occurs(model, "1.0"@) {
        (500_000, 1_500_000)
    } else {
        (1_250_000, 5_000_000)
    }
}

fn make_single(key: &str, value: Json) -> (r: Json)
    ensures
        r@ == single(key@, value@),
{
    let mut o = JsonObject::new();
    o.set(key, value);
    Json::Object(o)
}

fn make_text_part(s: &str) -> (r: Json)
    ensures
        r@ == text_part(s@),
{
    make_single("text", Json::of_text(s))
}

fn make_content(role: &str, parts: Vec<Json>) -> (r: Json)
    ensures
        r@ == content_json(role@, json::items_view(parts@)),
{
    let mut o = JsonObject::new();
    o.set("role", Json::of_text(role));
    o.set("parts", Json::Array(parts));
    Json::Object(o)
}

fn one(j: Json) -> (r: Vec<Json>)
    ensures
        json::items_view(r@) == seq![j@],
{
    let ghost view = j@;
    let mut v: Vec<Json> = Vec::new();
    v.push(j);
    assert(json::items_view(v@) =~= seq![view]);
    v
}

fn push_json(items: &mut Vec<Json>, j: Json)
    ensures
        json::items_view(final(items)@) == json::items_view(old(items)@).push(j@),
{
    let ghost view = j@;
    items.push(j);
    assert(json::items_view(items@) =~= json::items_view(old(items)@).push(view));
}

/// The part of a call with this name and these arguments.
pub fn make_call_part(name: &str, args: Json) -> (r: Json)
    ensures
        r@ == single(
            "functionCall"@,
            JsonView::Object(
                Map::empty().insert("name"@, JsonView::Text(name@)).insert("args"@, args@),
            ),
        ),
{
    let mut o = JsonObject::new();
    o.set("name", Json::of_text(name));
    o.set("args", args);
    make_single("functionCall", Json::Object(o))
}

fn add_call_parts(parts: &mut Vec<Json>, calls: &Vec<ToolCall>)
    ensures
        json::items_view(final(parts)@) == json::items_view(old(parts)@) + call_parts(
            types::calls_view(calls@),
        ),
{
    let ghost opening = json::items_view(parts@);
    let ghost all = types::calls_view(calls@);
    let mut i: usize = 0;
    assert(all.take(0) =~= Seq::empty());
    assert(opening + call_parts(all.take(0)) =~= opening);
    while i < calls.len()
        invariant
            i <= calls@.len(),
            all == types::calls_view(calls@),
            json::items_view(parts@) == opening + call_parts(all.take(i as int)),
        decreases calls@.len() - i,
    {
        let ghost so_far = call_parts(all.take(i as int));
        assert(all.take(i + 1).drop_last() =~= all.take(i as int));
        assert(all.take(i + 1).last() == calls@[i as int]@);
        match &calls[i] {
            ToolCall::Function(FunctionCall::Custom(custom)) => {
                let args = wire::make_arguments(json::parse(custom.arguments.as_str()));
                let part = make_call_part(custom.name.as_str(), args);
                assert((opening + so_far).push(part@) =~= opening + so_far.push(part@));
                push_json(parts, part);
            },
            _ => {},
        }
        i = i + 1;
    }
    assert(all.take(i as int) =~= all);
}

fn make_assistant_parts(content: &Option<String>, tool_calls: &Option<Vec<ToolCall>>) -> (r: Vec<
    Json,
>)
    ensures
        json::items_view(r@) == assistant_parts(
            text::opt_text(*content),
            types::opt_calls_view(*tool_calls),
        ),
{
    let mut parts: Vec<Json> = Vec::new();
    assert(json::items_view(parts@) =~= Seq::empty());
    match content {
        Some(t) => {
            if t.as_str().unicode_len() != 0 {
                push_json(&mut parts, make_text_part(t.as_str()));
                assert(json::items_view(parts@) =~= seq![text_part(t@)]);
            }
        },
        None => {},
    }
    match tool_calls {
        Some(calls) => add_call_parts(&mut parts, calls),
        None => {},
    }
    assert(json::items_view(parts@).len() == parts@.len());
    if parts.len() == 0 {
        proof {
            reveal_strlit("");
            assert(""@ =~= Seq::<char>::empty());
        }
        return one(make_text_part(""));
    }
    parts
}

fn make_response_part(name: &str, content: &str) -> (r: Json)
    ensures
        r@ == response_part(name@, content@),
{
    let mut o = JsonObject::new();
    o.set("name", Json::of_text(name));
    o.set("response", make_single("content", Json::of_text(content)));
    make_single("functionResponse", Json::Object(o))
}

/// A message as a content.
pub fn convert_message(msg: &ChatMessage) -> (r: Json)
    ensures
        r@ == message_content(msg@),
{
    match msg {
        ChatMessage::System { content, .. } => make_content(
            "system",
            one(make_text_part(content.as_str())),
        ),
        ChatMessage::User { content, .. } => make_content(
            "user",
            one(make_text_part(content.as_str())),
        ),
        ChatMessage::Assistant { content, tool_calls, .. } => make_content(
            "model",
            make_assistant_parts(content, tool_calls),
        ),
        ChatMessage::Tool { tool_call_id, content } => make_content(
            "user",
            one(make_response_part(tool_call_id.as_str(), content.as_str())),
        ),
        ChatMessage::Function { name, arguments } => make_content(
            "user",
            one(make_response_part(name.as_str(), arguments.as_str())),
        ),
    }
}

fn convert_all(messages: &Vec<ChatMessage>) -> (r: Json)
    ensures
        r@ == contents(types::messages_view(messages@)),
{
    let mut items: Vec<Json> = Vec::new();
    let mut i: usize = 0;
    while i < messages.len()
        invariant
            i <= messages@.len(),
            items@.len() == i,
            forall|j: int| 0 <= j < i ==> (#[trigger] items@[j])@ == message_content(messages@[j]@),
        decreases messages@.len() - i,
    {
        let item = convert_message(&messages[i]);
        items.push(item);
        i = i + 1;
    }
    assert(json::items_view(items@) =~= types::messages_view(messages@).map_values(
        |m: MessageView| message_content(m),
    ));
    Json::Array(items)
}

/// The contents of the plain messages, and the parts of the system messages.
fn convert_apart(messages: &Vec<ChatMessage>) -> (r: (Vec<Json>, Vec<Json>))
    ensures
        json::items_view(r.0@) == plain_contents(types::messages_view(messages@)),
        json::items_view(r.1@) == system_parts(types::messages_view(messages@)),
{
    let mut plain: Vec<Json> = Vec::new();
    let mut system: Vec<Json> = Vec::new();
    let ghost all = types::messages_view(messages@);
    let mut i: usize = 0;
    assert(all.take(0) =~= Seq::empty());
    assert(json::items_view(plain@) =~= Seq::empty());
    assert(json::items_view(system@) =~= Seq::empty());
    while i < messages.len()
        invariant
            i <= messages@.len(),
            all == types::messages_view(messages@),
            json::items_view(plain@) == plain_contents(all.take(i as int)),
            json::items_view(system@) == system_parts(all.take(i as int)),
        decreases messages@.len() - i,
    {
        let msg = &messages[i];
        assert(all.take(i + 1).drop_last() =~= all.take(i as int));
        assert(all.take(i + 1).last() == msg@);
        match msg {
            ChatMessage::System { content, .. } => push_json(
                &mut system,
                make_text_part(content.as_str()),
            ),
            _ => push_json(&mut plain, convert_message(msg)),
        }
        i = i + 1;
    }
    assert(all.take(i as int) =~= all);
    (plain, system)
}

fn declare(functions: &Vec<FunctionDefinition>) -> (r: Json)
    ensures
        r@ == declarations(functions@),
{
    let mut items: Vec<Json> = Vec::new();
    let mut i: usize = 0;
    while i < functions.len()
        invariant
            i <= functions@.len(),
            items@.len() == i,
            forall|j: int|
                0 <= j < i ==> (#[trigger] items@[j])@ == wire::function_json(functions@[j]),
        decreases functions@.len() - i,
    {
        items.push(wire::function_object(&functions[i]));
        i = i + 1;
    }
    assert(json::items_view(items@) =~= functions@.map_values(
        |f: FunctionDefinition| wire::function_json(f),
    ));
    Json::Array(items)
}

/// A function call, given its arguments as JSON text.
pub fn read_made_call(fc: &Json, written: Option<String>) -> (r: ToolCall)
    ensures
        r@ == made_call(fc@, text::opt_text(written)),
{
    proof {
        reveal_strlit("");
        assert(""@ =~= Seq::<char>::empty());
    }
    let arguments = match written {
        Some(s) => s,
        None => "{}".to_owned(),
    };
    types::custom_call(None, fc.at("name").text_or("").to_owned(), arguments)
}

fn write_args(fc: &Json) -> (r: Option<String>)
    ensures
        text::opt_text(r) == json::json_rendered(call_args(fc@)),
{
    match fc.get("args") {
        Some(args) => json::render(args),
        None => json::render(&Json::Object(JsonObject::new())),
    }
}

/// The texts and the function calls of some parts.
pub fn parse_response_parts(parts: &Vec<Json>) -> (r: (Vec<String>, Vec<ToolCall>))
    ensures
        text::texts(r.0@) == part_texts(json::items_view(parts@)),
        types::calls_view(r.1@) == part_calls(json::items_view(parts@)),
{
    let mut texts: Vec<String> = Vec::new();
    let mut calls: Vec<ToolCall> = Vec::new();
    let ghost all = json::items_view(parts@);
    let mut i: usize = 0;
    assert(all.take(0) =~= Seq::empty());
    assert(text::texts(texts@) =~= Seq::empty());
    assert(types::calls_view(calls@) =~= Seq::empty());
    while i < parts.len()
        invariant
            i <= parts@.len(),
            all == json::items_view(parts@),
            text::texts(texts@) == part_texts(all.take(i as int)),
            types::calls_view(calls@) == part_calls(all.take(i as int)),
        decreases parts@.len() - i,
    {
        let part = &parts[i];
        assert(all.take(i + 1).drop_last() =~= all.take(i as int));
        assert(all.take(i + 1).last() == part@);
        match part.at("text").as_text() {
            Some(s) => {
                let ghost before = texts@;
                texts.push(s.to_owned());
                assert(text::texts(texts@) =~= text::texts(before).push(s@));
            },
            None => {},
        }
        match part.get("functionCall") {
            Some(fc) => {
                let ghost before = calls@;
                let call = read_made_call(fc, write_args(fc));
                calls.push(call);
                assert(types::calls_view(calls@) =~= types::calls_view(before).push(call@));
            },
            None => {},
        }
        i = i + 1;
    }
    assert(all.take(i as int) =~= all);
    (texts, calls)
}

/// Why an answer ends.
pub fn normalize_finish_reason(raw: Option<&str>, has_tool_calls: bool) -> (r: Option<String>)
    ensures
        text::opt_text(r) == normalized(
            text::opt_str(raw),
            has_tool_calls,
            outside::lowercased(text::text_or(text::opt_str(raw), Seq::empty())),
        ),
{
    match raw {
        Some(reason) => {
            let lower = outside::to_lowercase(reason);
            normalize_with_lower(Some(reason), has_tool_calls, lower)
        },
        None => None,
    }
}

/// Why an answer ends, given the reason in lower case.
pub fn normalize_with_lower(raw: Option<&str>, has_tool_calls: bool, lower: String) -> (r: Option<
    String,
>)
    ensures
        text::opt_text(r) == normalized(text::opt_str(raw), has_tool_calls, lower@),
{
    match raw {
        Some(reason) => if text::same(reason, "STOP") {
            if has_tool_calls {
                Some("tool_calls".to_owned())
            } else {
                Some("stop".to_owned())
            }
        } else if text::same(reason, "SAFETY") {
            Some("content_filter".to_owned())
        } else {
            Some(lower)
        },
        None => None,
    }
}

fn read_choice(index: usize, candidate: &Json) -> (r: Choice)
    ensures
        r@ == parsed_choice(index as int, candidate@),
{
    let ghost all = candidate@.field("content"@).field("parts"@).items_or_none();
    let none: Vec<Json> = Vec::new();
    assert(json::items_view(none@) =~= Seq::empty());
    let parts = match candidate.at("content").at("parts").as_items() {
        Some(items) => items,
        None => {
            assert(all =~= Seq::empty());
            &none
        },
    };
    let read = parse_response_parts(parts);
    assert(types::calls_view(read.1@).len() == read.1@.len());
    let finish_reason = normalize_finish_reason(
        candidate.at("finishReason").as_text(),
        read.1.len() != 0,
    );
    Choice {
        index: index as u32,
        message: wire::assemble(&read.0, read.1),
        finish_reason,
        logprobs: None,
    }
}

/// Whether the sum of the counts in the usage statistics of an answer is in range.
pub fn check_usage(j: &Json) -> (r: bool)
    ensures
        r == usage_in_range(j@),
{
    let u = j.at("usageMetadata");
    let prompt: u32 = u.at("promptTokenCount").count_or_zero() as u32;
    let completion: u32 = u.at("candidatesTokenCount").count_or_zero() as u32;
    prompt as u64 + completion as u64 <= u32::MAX as u64
}

fn read_usage(j: &Json) -> (r: Option<Usage>)
    requires
        usage_in_range(j@),
    ensures
        r == usage_of(j@),
{
    match j.get("usageMetadata") {
        Some(u) => {
            let prompt_tokens: u32 = u.at("promptTokenCount").count_or_zero() as u32;
            let completion_tokens: u32 = u.at("candidatesTokenCount").count_or_zero() as u32;
            Some(Usage::new(prompt_tokens, completion_tokens))
        },
        None => None,
    }
}

/// The response in an answer, with the clock as it reads now.
pub fn build_response(j: &Json, model: &str) -> (r: ChatCompletionResponse)
    requires
        usage_in_range(j@),
    ensures
        exists|millis: i64, seconds: i64|
            r@ == #[trigger] parsed_response(j@, model@, millis, seconds),
{
    let millis: i64 = outside::timestamp_millis();
    let seconds: i64 = outside::timestamp();
    build_response_at(j, model, millis, seconds)
}

/// The response in an answer, at a moment given in milliseconds and in seconds.
pub fn build_response_at(j: &Json, model: &str, millis: i64, seconds: i64) -> (r:
    ChatCompletionResponse)
    requires
        usage_in_range(j@),
    ensures
        r@ == parsed_response(j@, model@, millis, seconds),
{
    let mut choices: Vec<Choice> = Vec::new();
    let ghost all = j@.field("candidates"@).items_or_none();
    match j.at("candidates").as_items() {
        Some(items) => {
            let mut i: usize = 0;
            while i < items.len()
                invariant
                    i <= items@.len(),
                    all == json::items_view(items@),
                    choices@.len() == i,
                    forall|k: int|
                        0 <= k < i ==> (#[trigger] choices@[k])@ == parsed_choice(k, all[k]),
                decreases items@.len() - i,
            {
                assert(all[i as int] == items@[i as int]@);
                choices.push(read_choice(i, &items[i]));
                i = i + 1;
            }
        },
        None => {
            assert(all =~= Seq::empty());
        },
    }
    assert(types::choices_view(choices@) =~= parsed_choices(all));
    ChatCompletionResponse {
        id: text::cat("gemini_", text::signed_decimal_text(millis).as_str()),
        object: "chat.completion".to_owned(),
        created: seconds as u64,
        model: model.to_owned(),
        choices,
        usage: read_usage(j),
        system_fingerprint: None,
    }
}

/// The body of a request for a completion.
pub fn build_body(request: &ChatCompletionRequest) -> (r: Json)
    ensures
        r@ == chat_body(*request),
{
    let mut body = JsonObject::new();
    body.set("contents", convert_all(&request.messages));
    wire::set_sampling(&mut body, "maxOutputTokens", "topP", request);
    Json::Object(body)
}

fn read_listed_model(m: &Json) -> (r: Option<FullModelInfo>)
    ensures
        (match r {
            Some(x) => Some(x@),
            None => None,
        }) == listed_model(m@),
{
    let name = match m.at("name").as_text() {
        Some(s) => s,
        None => return None,
    };
    let id = text::without_prefix(name, "models/");
    let display_name = m.at("displayName").text_or(id.as_str()).to_owned();
    let window: u32 = m.at("inputTokenLimit").count_or_zero() as u32;
    let output: u32 = m.at("outputTokenLimit").count_or_zero() as u32;
    let vision = text::contains(id.as_str(), "pro") || text::contains(id.as_str(), "flash");
    let mut inputs = catalogue::one_text("text");
    if vision {
        let ghost before = inputs@;
        inputs.push("image".to_owned());
        assert(text::texts(inputs@) =~= text::texts(before).push("image"@));
        assert(text::texts(inputs@) =~= seq!["text"@, "image"@]);
    }
    Some(
        FullModelInfo {
            id,
            name: display_name,
            provider: "gemini".to_owned(),
            description: text::own_opt(m.at("description").as_text()),
            context_window: window,
            max_output_tokens: output,
            capabilities: ModelCapabilities {
                function_calling: true,
                vision,
                streaming: true,
                json_mode: true,
                caching: false,
                max_tokens: output,
                context_window: window,
                input_modalities: inputs,
                output_modalities: catalogue::one_text("text"),
                strengths: catalogue::no_texts(),
            },
            pricing: Some(
                ModelPricing {
                    prompt_tokens: 0,
                    completion_tokens: 0,
                    image_tokens: None,
                    is_free: true,
                },
            ),
            created: 0,
            available: true,
        },
    )
}

fn read_listed_models(items: &Vec<Json>) -> (r: Vec<FullModelInfo>)
    ensures
        types::models_view(r@) == listed_models(json::items_view(items@)),
{
    let mut out: Vec<FullModelInfo> = Vec::new();
    let ghost all = json::items_view(items@);
    let mut i: usize = 0;
    assert(all.take(0) =~= Seq::empty());
    assert(types::models_view(out@) =~= Seq::empty());
    while i < items.len()
        invariant
            i <= items@.len(),
            all == json::items_view(items@),
            types::models_view(out@) == listed_models(all.take(i as int)),
        decreases items@.len() - i,
    {
        assert(all.take(i + 1).drop_last() =~= all.take(i as int));
        assert(all.take(i + 1).last() == items@[i as int]@);
        match read_listed_model(&items[i]) {
            Some(m) => {
                let ghost before = out@;
                out.push(m);
                assert(types::models_view(out@) =~= types::models_view(before).push(m@));
            },
            None => {},
        }
        i = i + 1;
    }
    assert(all.take(i as int) =~= all);
    out
}

impl GeminiProvider {
    /// The configuration.
    pub closed spec fn settings(&self) -> GeminiConfig {
        self.config
    }

    /// The model that a request is for.
    pub open spec fn model_for(&self, model: Seq<char>) -> Result<Seq<char>, ErrorView> {
        wire::resolved(model, text::opt_text(self.settings().default_model), no_model_message())
    }

    /// The request that posts a body for a model.
    pub open spec fn posted(&self, model: Seq<char>, body: JsonView) -> HttpRequestView {
        wire::posting(
            "https://generativelanguage.googleapis.com/v1beta/models/"@ + model
                + ":generateContent?key="@ + self.settings().api_key@,
            seq![http::json_header()],
            body,
        )
    }

    /// The URL of the live list of models.
    pub open spec fn models_url(&self) -> Seq<char> {
        let base = text::text_or(
            text::opt_text(self.settings().base_url),
            "https://generativelanguage.googleapis.com/v1beta"@,
        );
        if self.settings().api_key@.len() == 0 {
            base + "/models"@
        } else {
            base + "/models?key="@ + self.settings().api_key@
        }
    }

    /// A provider with this key and the default configuration.
    pub fn new(api_key: &str) -> (r: Result<GeminiProvider, LLMError>)
        ensures
            r matches Ok(p) && p.settings().api_key@ == api_key@ && p.settings().default_model
                is None && p.settings().base_url is None,
    {
        let mut config = GeminiConfig::default();
        config.api_key = api_key.to_owned();
        Ok(GeminiProvider { config })
    }

    /// A provider with this configuration, which has to hold a key.
    pub fn with_config(config: GeminiConfig) -> (r: Result<GeminiProvider, LLMError>)
        ensures
            match r {
                Ok(p) => config.api_key@.len() != 0 && p.settings() == config,
                Err(e) => config.api_key@.len() == 0 && e@ == (ErrorView::ConfigurationError {
                    message: "Gemini API key is required"@,
                    field: Some("api_key"@),
                }),
            },
    {
        if config.api_key.as_str().unicode_len() == 0 {
            return Err(error::configuration_error("Gemini API key is required", "api_key"));
        }
        Ok(GeminiProvider { config })
    }

    fn resolve(&self, model: &String) -> (r: Result<String, LLMError>)
        ensures
            http::seen(r) == self.model_for(model@),
    {
        wire::resolve_model(
            model,
            &self.config.default_model,
            "No model configured for GeminiProvider — set default_model in GeminiConfig or pass a model in the request",
        )
    }

    /// The URL at which the default model generates.
    pub fn get_base_url(&self) -> (r: Result<String, LLMError>)
        ensures
            http::seen(r) == (match self.model_for(Seq::empty()) {
                Ok(model) => Ok(
                    "https://generativelanguage.googleapis.com/v1beta/models/"@ + model
                        + ":generateContent"@,
                ),
                Err(e) => Err(e),
            }),
    {
        let none = String::new();
        match self.resolve(&none) {
            Ok(model) => Ok(
                text::cat3(
                    "https://generativelanguage.googleapis.com/v1beta/models/",
                    model.as_str(),
                    ":generateContent",
                ),
            ),
            Err(e) => Err(e),
        }
    }

    fn generate_post(&self, model: &str, body: Json) -> (r: HttpRequest)
        ensures
            r@ == self.posted(model@, body@),
    {
        let mut headers: Vec<(String, String)> = Vec::new();
        headers.push(http::header("Content-Type", "application/json"));
        assert(http::headers_view(headers@) =~= seq![http::json_header()]);
        let endpoint = text::cat3(
            "https://generativelanguage.googleapis.com/v1beta/models/",
            model,
            ":generateContent?key=",
        );
        wire::post(text::cat(endpoint.as_str(), self.config.api_key.as_str()), headers, body)
    }

    /// The request for the live list of models.
    pub fn list_models_request(&self) -> (r: HttpRequest)
        ensures
            r@ == wire::getting(self.models_url(), Seq::empty()),
    {
        let base = match &self.config.base_url {
            Some(u) => u.as_str(),
            None => "https://generativelanguage.googleapis.com/v1beta",
        };
        let url = if self.config.api_key.as_str().unicode_len() == 0 {
            text::cat(base, "/models")
        } else {
            text::cat3(base, "/models?key=", self.config.api_key.as_str())
        };
        let headers: Vec<(String, String)> = Vec::new();
        assert(http::headers_view(headers@) =~= Seq::empty());
        wire::get(url, headers)
    }

    /// The models in the answer to a request for the live list, or the error in their place.
    pub fn fetch_models_response(&self, outcome: HttpOutcome) -> (r: Result<
        Vec<FullModelInfo>,
        LLMError,
    >)
        ensures
            (match r {
                Ok(models) => Ok(types::models_view(models@)),
                Err(e) => Err(e@),
            }) == models_answer(outcome@),
    {
        match outcome {
            HttpOutcome::Failed { failure: HttpFailure::Unsent { message } } => Err(
                LLMError::HttpError {
                    message: text::cat("Failed to fetch Gemini models: ", message.as_str()),
                    status_code: None,
                    body: None,
                },
            ),
            HttpOutcome::Failed { failure: HttpFailure::Refused { status, code, body } } => Err(
                LLMError::HttpError {
                    message: text::cat("Gemini /models returned ", status.as_str()),
                    status_code: Some(code),
                    body,
                },
            ),
            HttpOutcome::Unreadable { message } => Err(
                LLMError::SerializationError {
                    message,
                    context: Some("Failed to parse Gemini models".to_owned()),
                },
            ),
            HttpOutcome::Answered { json } => match json.at("models").as_items() {
                Some(items) => Ok(read_listed_models(items)),
                None => Err(
                    LLMError::SerializationError {
                        message: "Missing 'models' array".to_owned(),
                        context: None,
                    },
                ),
            },
        }
    }

    /// The models in the answer to a request for the live list; none where there is an error.
    pub fn list_models_response(&self, outcome: HttpOutcome) -> (r: Vec<FullModelInfo>)
        ensures
            types::models_view(r@) == (match models_answer(outcome@) {
                Ok(models) => models,
                Err(_) => Seq::empty(),
            }),
    {
        match self.fetch_models_response(outcome) {
            Ok(models) => models,
            Err(_) => {
                let none: Vec<FullModelInfo> = Vec::new();
                assert(types::models_view(none@) =~= Seq::empty());
                none
            },
        }
    }

    /// The request for a completion, and the model that it is for.
    pub fn chat_completion_request(&self, request: &ChatCompletionRequest) -> (r: Result<
        (HttpRequest, String),
        LLMError,
    >)
        ensures
            match self.model_for(request.model@) {
                Ok(model) => r matches Ok(p) && p.0@ == self.posted(model, chat_body(*request))
                    && p.1@ == model,
                Err(e) => r matches Err(x) && x@ == e,
            },
    {
        let model = match self.resolve(&request.model) {
            Ok(m) => m,
            Err(e) => return Err(e),
        };
        Ok((self.generate_post(model.as_str(), build_body(request)), model))
    }

    /// The request for a completion with functions, and the model that it is for.
    pub fn chat_completion_with_functions_request(
        &self,
        request: &ChatCompletionRequest,
        functions: &Vec<FunctionDefinition>,
    ) -> (r: Result<(HttpRequest, String), LLMError>)
        ensures
            match self.model_for(request.model@) {
                Ok(model) => r matches Ok(p) && p.0@ == self.posted(
                    model,
                    functions_body(*request, functions@),
                ) && p.1@ == model,
                Err(e) => r matches Err(x) && x@ == e,
            },
    {
        let model = match self.resolve(&request.model) {
            Ok(m) => m,
            Err(e) => return Err(e),
        };
        let apart = convert_apart(&request.messages);
        let mode = make_single("mode", Json::of_text("AUTO"));
        let mut body = JsonObject::new();
        body.set("contents", Json::Array(apart.0));
        body.set(
            "tools",
            Json::Array(one(make_single("functionDeclarations", declare(functions)))),
        );
        body.set("toolConfig", make_single("functionCallingConfig", mode));
        assert(json::items_view(apart.1@).len() == apart.1@.len());
        if apart.1.len() != 0 {
            body.set("systemInstruction", make_single("parts", Json::Array(apart.1)));
        }
        wire::set_sampling(&mut body, "maxOutputTokens", "topP", request);
        Ok((self.generate_post(model.as_str(), Json::Object(body)), model))
    }

    /// The response that comes of a request for a completion, with or without functions, with the
    /// clock as it reads now.
    pub fn chat_completion_response(&self, model: &str, outcome: HttpOutcome) -> (r: Result<
        ChatCompletionResponse,
        LLMError,
    >)
        requires
            outcome@ matches OutcomeView::Answered { json } ==> usage_in_range(json),
        ensures
            match http::answer(
                outcome@,
                "Gemini API error: "@,
                "Failed to parse Gemini response"@,
            ) {
                Ok(j) => r matches Ok(x) && exists|millis: i64, seconds: i64|
                    x@ == #[trigger] parsed_response(j, model@, millis, seconds),
                Err(e) => r matches Err(x) && x@ == e,
            },
    {
        let millis: i64 = outside::timestamp_millis();
        let seconds: i64 = outside::timestamp();
        self.chat_completion_response_at(model, outcome, millis, seconds)
    }

    /// The response that comes of a request for a completion, at a moment given in milliseconds
    /// and in seconds.
    pub fn chat_completion_response_at(
        &self,
        model: &str,
        outcome: HttpOutcome,
        millis: i64,
        seconds: i64,
    ) -> (r: Result<ChatCompletionResponse, LLMError>)
        requires
            outcome@ matches OutcomeView::Answered { json } ==> usage_in_range(json),
        ensures
            http::seen(r) == (match http::answer(
                outcome@,
                "Gemini API error: "@,
                "Failed to parse Gemini response"@,
            ) {
                Ok(j) => Ok(parsed_response(j, model@, millis, seconds)),
                Err(e) => Err(e),
            }),
    {
        match http::read_answer(outcome, "Gemini API error: ", "Failed to parse Gemini response") {
            Ok(j) => Ok(build_response_at(&j, model, millis, seconds)),
            Err(e) => Err(e),
        }
    }

    /// The request for a streamed completion, and the stream that its answer feeds.
    pub fn chat_completion_stream_request(&self, request: &ChatCompletionRequest) -> (r: Result<
        (HttpRequest, ChunkStream),
        LLMError,
    >)
        ensures
            match self.model_for(request.model@) {
                Ok(model) => r matches Ok(p) && p.0@ == self.posted(model, stream_body(*request))
                    && p.1.dialect() == Dialect::Gemini && p.1.model() == model && p.1.buffer()
                    == Seq::<char>::empty() && p.1.count() == 0,
                Err(e) => r matches Err(x) && x@ == e,
            },
    {
        let model = match self.resolve(&request.model) {
            Ok(m) => m,
            Err(e) => return Err(e),
        };
        let mut body = JsonObject::new();
        body.set("contents", convert_all(&request.messages));
        body.set("stream", Json::Bool(true));
        wire::set_sampling(&mut body, "maxOutputTokens", "topP", request);
        Ok(
            (
                self.generate_post(model.as_str(), Json::Object(body)),
                ChunkStream::new(Dialect::Gemini, model.as_str()),
            ),
        )
    }

    /// The error of a streamed completion that did not start.
    pub fn chat_completion_stream_error(&self, failure: HttpFailure) -> (r: LLMError)
        ensures
            r@ == http::failure_error(failure@, "Gemini API error: "@),
    {
        http::error_of_failure(failure, "Gemini API error: ")
    }

    /// Whether a model whose name in lower case is this can call functions.
    pub fn lower_supports_function_calling(lower: &str) -> (r: bool)
        ensures
            r == lower_calls_functions(lower@),
    {
        text::contains(lower, "1.5") || text::contains(lower, "2.0") || text::contains(
            lower,
            "flash",
        ) || text::contains(lower, "gemini-pro")
    }
}

impl LLMProvider for GeminiProvider {
    open spec fn id(&self) -> Seq<char> {
        "gemini"@
    }

    open spec fn catalogue(&self) -> Seq<Seq<char>> {
        Seq::empty()
    }

    open spec fn calls_functions(&self, model: Seq<char>) -> bool {
        lower_calls_functions(outside::lowercased(model))
    }

    open spec fn prices(&self, model: Seq<char>) -> Option<ModelPricing> {
        None
    }

    open spec fn abilities(&self, model: Seq<char>) -> Option<CapabilitiesView> {
        Some(types::no_capabilities())
    }

    open spec fn limits(&self) -> Result<RateLimitStatus, ErrorView> {
        Ok(rate_limiter::unknown_status())
    }

    open spec fn cost(&self, request: ChatCompletionRequest) -> Result<EstimateView, ErrorView> {
        match self.model_for(request.model@) {
            Ok(model) => Ok(
                wire::estimated(
                    request,
                    model,
                    estimate_prices(model).0,
                    estimate_prices(model).1,
                    "gemini"@,
                ),
            ),
            Err(e) => Err(e),
        }
    }

    fn name(&self) -> (r: &str) {
        "gemini"
    }

    fn supported_models(&self) -> (r: Vec<String>) {
        catalogue::no_texts()
    }

    fn get_model_pricing(&self, model: &str) -> (r: Option<ModelPricing>) {
        None
    }

    fn get_model_capabilities(&self, model: &str) -> (r: Option<ModelCapabilities>) {
        Some(ModelCapabilities::default())
    }

    fn supports_function_calling(&self, model: &str) -> (r: bool) {
        let lower = outside::to_lowercase(model);
        Self::lower_supports_function_calling(lower.as_str())
    }

    fn rate_limit_status(&self) -> (r: Result<RateLimitStatus, LLMError>) {
        Ok(RateLimitStatus::unknown())
    }

    fn estimate_cost(&self, request: &ChatCompletionRequest) -> (r: Result<CostEstimate, LLMError>) {
        let resolved = match self.resolve(&request.model) {
            Ok(m) => m,
            Err(e) => return Err(e),
        };
        let model = resolved.as_str();
        let prices: (u64, u64) = if text::contains(model, "flash") {
            (75_000, 300_000)
        } else if text::contains(model, "pro") {
            (1_250_000, 5_000_000)
        } else if text::contains(model, "1.0") {
            (500_000, 1_500_000)
        } else {
            (1_250_000, 5_000_000)
        };
        Ok(wire::estimate(request, model, prices.0, prices.1, "gemini"))
    }
}

/// What is sent for a completion: the messages, and how to sample where the request says so.
pub proof fn law_chat_bodies(request: ChatCompletionRequest, other: Seq<char>)
    requires
        other != "contents"@,
        other != "maxOutputTokens"@,
        other != "temperature"@,
        other != "topP"@,
    ensures
        ({
            let body = chat_body(request);
            &&& body.holds("contents"@, contents(types::messages_view(request.messages@)))
            &&& wire::carries_count(body, "maxOutputTokens"@, request.max_tokens)
            &&& wire::carries_real(body, "temperature"@, request.temperature)
            &&& wire::carries_real(body, "topP"@, request.top_p)
            &&& !body.has(other)
        }),
{
    reveal_strlit("contents");
    reveal_strlit("maxOutputTokens");
    reveal_strlit("temperature");
    reveal_strlit("topP");
    assert("contents"@.len() == 8);
    assert("maxOutputTokens"@.len() == 15);
    assert("temperature"@.len() == 11);
    assert("topP"@.len() == 4);
}

/// What is sent for a streamed completion is what is sent for one that is not, and that it is to be
/// streamed.
pub proof fn law_stream_bodies(request: ChatCompletionRequest, other: Seq<char>)
    requires
        other != "contents"@,
        other != "stream"@,
        other != "maxOutputTokens"@,
        other != "temperature"@,
        other != "topP"@,
    ensures
        ({
            let body = stream_body(request);
            &&& body.holds("contents"@, contents(types::messages_view(request.messages@)))
            &&& body.holds("stream"@, JsonView::Bool(true))
            &&& wire::carries_count(body, "maxOutputTokens"@, request.max_tokens)
            &&& wire::carries_real(body, "temperature"@, request.temperature)
            &&& wire::carries_real(body, "topP"@, request.top_p)
            &&& !body.has(other)
        }),
{
    reveal_strlit("contents");
    reveal_strlit("stream");
    reveal_strlit("maxOutputTokens");
    reveal_strlit("temperature");
    reveal_strlit("topP");
    assert("contents"@.len() == 8);
    assert("stream"@.len() == 6);
    assert("maxOutputTokens"@.len() == 15);
    assert("temperature"@.len() == 11);
    assert("topP"@.len() == 4);
}

/// What is sent for a completion with functions: the messages that are no system messages, one
/// declaration for each function, in order, with the choice left open, the system messages apart
/// where there are some, and how to sample where the request says so.
pub proof fn law_function_bodies(request: ChatCompletionRequest,
    functions: Seq<FunctionDefinition>, other: Seq<char>)
    requires
        other != "contents"@,
        other != "tools"@,
        other != "toolConfig"@,
        other != "systemInstruction"@,
        other != "maxOutputTokens"@,
        other != "temperature"@,
        other != "topP"@,
    ensures
        ({
            let body = functions_body(request, functions);
            &&& body.holds("contents"@,
                JsonView::Array(plain_contents(types::messages_view(request.messages@))))
            &&& body.holds("tools"@,
                JsonView::Array(seq![JsonView::Object(
                map!["functionDeclarations"@ =>
                JsonView::Array(Seq::new(functions.len(),
                |i: int| wire::function_json(functions[i])))])]))
            &&& body.holds("toolConfig"@,
                JsonView::Object(map!["functionCallingConfig"@ =>
                JsonView::Object(map!["mode"@ => JsonView::Text("AUTO"@)])]))
            &&& (if system_parts(types::messages_view(request.messages@)).len()
                == 0 { !body.has("systemInstruction"@) } else { body.holds("systemInstruction"@,
                JsonView::Object(map!["parts"@ =>
                JsonView::Array(system_parts(types::messages_view(request.messages@)))])) })
            &&& wire::carries_count(body, "maxOutputTokens"@, request.max_tokens)
            &&& wire::carries_real(body, "temperature"@, request.temperature)
            &&& wire::carries_real(body, "topP"@, request.top_p)
            &&& !body.has(other)
        }),
{
    reveal_strlit("contents");
    reveal_strlit("tools");
    reveal_strlit("toolConfig");
    reveal_strlit("systemInstruction");
    reveal_strlit("maxOutputTokens");
    reveal_strlit("temperature");
    reveal_strlit("topP");
    assert("contents"@.len() == 8);
    assert("tools"@.len() == 5);
    assert("toolConfig"@.len() == 10);
    assert("systemInstruction"@.len() == 17);
    assert("maxOutputTokens"@.len() == 15);
    assert("temperature"@.len() == 11);
    assert("topP"@.len() == 4);
    assert(declarations(functions) == JsonView::Array(
        Seq::new(functions.len(), |i: int| wire::function_json(functions[i])),
    )) by {
        assert(functions.map_values(|f: FunctionDefinition| wire::function_json(f)) =~= Seq::new(
            functions.len(),
            |i: int| wire::function_json(functions[i]),
        ));
    }
}

/// The part is a text.
pub open spec fn is_text_part(part: JsonView, s: Seq<char>) -> bool {
    part == JsonView::Object(map!["text"@ => JsonView::Text(s)])
}

/// The part is the response of this function.
pub open spec fn is_response_part(part: JsonView, name: Seq<char>, content: Seq<char>) -> bool {
    part == JsonView::Object(
        map![
            "functionResponse"@ => JsonView::Object(
                map![
                    "name"@ => JsonView::Text(name),
                    "response"@ => JsonView::Object(map!["content"@ => JsonView::Text(content)]),
                ],
            ),
        ],
    )
}

/// A message is one content. The system and the user say their text, the model says its text, and
/// results of tools and functions come from the user as responses under the name that they have.
pub proof fn law_messages_are_sent(m: MessageView, parts: Seq<JsonView>)
    requires
        message_content(m).holds("parts"@, JsonView::Array(parts)),
    ensures
        match m {
            MessageView::System { content, .. } => message_content(m).holds(
                "role"@,
                JsonView::Text("system"@),
            ) && parts.len() == 1 && is_text_part(parts[0], content),
            MessageView::User { content, .. } => message_content(m).holds(
                "role"@,
                JsonView::Text("user"@),
            ) && parts.len() == 1 && is_text_part(parts[0], content),
            MessageView::Assistant { content, tool_calls, .. } => message_content(m).holds(
                "role"@,
                JsonView::Text("model"@),
            ) && parts.len() > 0 && (content is Some && content->0.len() > 0 ==> is_text_part(
                parts[0],
                content->0,
            )) && ((tool_calls matches Some(c) ==> c.len() == 0) ==> parts.len() == 1
                && is_text_part(
                parts[0],
                if content is Some {
                    content->0
                } else {
                    Seq::empty()
                },
            )),
            MessageView::Tool { tool_call_id, content } => message_content(m).holds(
                "role"@,
                JsonView::Text("user"@),
            ) && parts.len() == 1 && is_response_part(parts[0], tool_call_id, content),
            MessageView::Function { name, arguments } => message_content(m).holds(
                "role"@,
                JsonView::Text("user"@),
            ) && parts.len() == 1 && is_response_part(parts[0], name, arguments),
        },
{
    reveal_strlit("role");
    reveal_strlit("parts");
    assert("role"@.len() == 4 && "parts"@.len() == 5);
    if let MessageView::Assistant { content, tool_calls, .. } = m {
        assert(message_content(m).holds("parts"@,
            JsonView::Array(assistant_parts(content, tool_calls))));
        if let Some(c) = tool_calls {
            if c.len() == 0 {
                assert(call_parts(c) =~= Seq::empty());
            }
        }
        if let Some(t) = content {
            if t.len() == 0 {
                assert(t =~= Seq::empty());
            }
        }
    }
}

/// One more call of a custom function is one more part behind the others, with the name and with
/// the arguments as JSON, an empty object where they are none; it stands alone where the message
/// had nothing else to say. Calls of other kinds are not sent.
pub proof fn law_calls_are_sent(
    content: Option<Seq<char>>,
    name: Option<Seq<char>>,
    calls: Seq<CallView>,
    call: CallView,
    parts: Seq<JsonView>,
)
    requires
        message_content(
            (MessageView::Assistant { content, tool_calls: Some(calls), name }),
        ).holds("parts"@, JsonView::Array(parts)),
    ensures
        ({
            let after = message_content(
                (MessageView::Assistant { content, tool_calls: Some(calls.push(call)), name }),
            );
            match call {
                CallView::Custom { id, name: called, arguments } => {
                    let part = JsonView::Object(
                        map![
                            "functionCall"@ => JsonView::Object(
                                map![
                                    "name"@ => JsonView::Text(called),
                                    "args"@ => if json::json_parsed(arguments) is Some {
                                        json::json_parsed(arguments)->0
                                    } else {
                                        JsonView::Object(Map::empty())
                                    },
                                ],
                            ),
                        ],
                    );
                    let silent = parts.len() == 1 && is_text_part(parts[0], Seq::empty());
                    &&& !silent ==> after.holds("parts"@, JsonView::Array(parts.push(part)))
                    &&& silent ==> after.holds("parts"@, JsonView::Array(seq![part]))
                },
                _ => after.holds("parts"@, JsonView::Array(parts)),
            }
        }),
{
    reveal_strlit("role");
    reveal_strlit("parts");
    reveal_strlit("text");
    reveal_strlit("functionCall");
    assert("role"@.len() == 4);
    assert("parts"@.len() == 5);
    assert("text"@.len() == 4);
    assert("functionCall"@.len() == 12);
    assert("role"@[0] != "text"@[0]);
    assert(calls.push(call).drop_last() =~= calls);
    let before = assistant_parts(content, Some(calls));
    let opening = match content {
        Some(t) => if t.len() == 0 {
            Seq::empty()
        } else {
            seq![text_part(t)]
        },
        None => Seq::empty(),
    };
    assert(message_content(
        MessageView::Assistant { content, tool_calls: Some(calls), name },
    ).holds("parts"@, JsonView::Array(before)));
    assert(before == parts);
    lemma_call_parts_call(calls);
    let said = opening + call_parts(calls);
    match call {
        CallView::Custom { id, name: called, arguments } => {
            let part = call_part(call)->Some_0;
            assert(opening + call_parts(calls.push(call)) =~= said.push(part));
            if said.len() == 0 {
                assert(said.push(part) =~= seq![part]);
                assert(is_text_part(parts[0], Seq::empty()));
            } else {
                if parts.len() == 1 && is_text_part(parts[0], Seq::empty()) {
                    let m = Map::<Seq<char>, JsonView>::empty().insert(
                        "text"@,
                        JsonView::Text(Seq::empty()),
                    );
                    assert(parts[0] == JsonView::Object(m));
                    if opening.len() > 0 {
                        let t = content->Some_0;
                        assert(parts[0] == text_part(t));
                        assert(m["text"@] == JsonView::Text(t));
                        assert(t.len() == 0);
                    } else {
                        assert(parts[0] == call_parts(calls)[0]);
                        assert(m.dom().contains("functionCall"@));
                    }
                }
            }
        },
        _ => {},
    }
}

proof fn lemma_call_parts_call(calls: Seq<CallView>)
    ensures
        forall|i: int|
            0 <= i < call_parts(calls).len() ==> (#[trigger] call_parts(calls)[i]).has(
                "functionCall"@,
            ),
    decreases calls.len(),
{
    if calls.len() > 0 {
        let front = call_parts(calls.drop_last());
        lemma_call_parts_call(calls.drop_last());
        assert forall|i: int| 0 <= i < call_parts(calls).len() implies (#[trigger] call_parts(
            calls,
        )[i]).has("functionCall"@) by {
            if i < front.len() {
                assert(call_parts(calls)[i] == front[i]);
            }
        }
    }
}

/// The messages are sent one by one, in their order. With functions, system messages stand apart
/// from the others, and both keep their order.
pub proof fn law_conversations_are_sent(messages: Seq<MessageView>, m: MessageView)
    ensures
        contents(messages) matches JsonView::Array(items) && items.len() == messages.len()
            && contents(messages.push(m)) == JsonView::Array(items.push(message_content(m))),
        plain_contents(Seq::<MessageView>::empty()) == Seq::<JsonView>::empty(),
        system_parts(Seq::<MessageView>::empty()) == Seq::<JsonView>::empty(),
        match m {
            MessageView::System { content, .. } => plain_contents(messages.push(m))
                == plain_contents(messages) && system_parts(messages.push(m)) == system_parts(
                messages,
            ).push(JsonView::Object(map!["text"@ => JsonView::Text(content)])),
            _ => plain_contents(messages.push(m)) == plain_contents(messages).push(
                message_content(m),
            ) && system_parts(messages.push(m)) == system_parts(messages),
        },
{
    assert(messages.push(m).drop_last() =~= messages);
    assert(messages.push(m).map_values(|m: MessageView| message_content(m)) =~= messages.map_values(
        |m: MessageView| message_content(m),
    ).push(message_content(m)));
}

/// The answer has the model that was asked for, the moment at which it came, and as usage the
/// counts that stand there with their sum, or none without statistics.
pub proof fn law_answers_are_read(
    j: JsonView,
    model: Seq<char>,
    millis: i64,
    seconds: i64,
    u: JsonView,
    prompt: u64,
    completion: u64,
)
    requires
        j.offers("usageMetadata"@, u),
        u.counts("promptTokenCount"@, prompt),
        u.counts("candidatesTokenCount"@, completion),
        prompt % 0x1_0000_0000 + completion % 0x1_0000_0000 <= u32::MAX,
    ensures
        ({
            let r = parsed_response(j, model, millis, seconds);
            &&& r.id == "gemini_"@ + text::signed_decimal(millis as int)
            &&& r.object == "chat.completion"@
            &&& r.created == seconds as u64
            &&& r.model == model
            &&& r.system_fingerprint is None
            &&& r.usage is Some <==> j.has("usageMetadata"@)
            &&& r.usage matches Some(x) ==> x.prompt_tokens == prompt % 0x1_0000_0000
                && x.completion_tokens == completion % 0x1_0000_0000 && x.total_tokens
                == x.prompt_tokens + x.completion_tokens
        }),
        usage_in_range(j),
{
    json::lemma_low_half(prompt);
    json::lemma_low_half(completion);
}

/// There are as many choices as candidates, in their order. A candidate that stopped of itself
/// says so, or says that it calls tools where it does; one that was held back says that it was
/// filtered; any other reason is given in lower case, and none as none.
pub proof fn law_candidates_are_read(
    j: JsonView,
    model: Seq<char>,
    millis: i64,
    seconds: i64,
    candidates: Seq<JsonView>,
    i: int,
    reason: Option<Seq<char>>,
)
    requires
        j.lists("candidates"@, candidates),
        0 <= i < candidates.len() <= u32::MAX,
        candidates[i].says("finishReason"@, reason),
    ensures
        ({
            let choices = parsed_response(j, model, millis, seconds).choices;
            &&& choices.len() == candidates.len()
            &&& choices[i].index == i
            &&& choices[i].logprobs is None
            &&& choices[i].message matches MessageView::Assistant { tool_calls, name, .. }
                && name is None && (reason == Some("STOP"@) ==> choices[i].finish_reason == (
            if tool_calls is Some {
                Some("tool_calls"@)
            } else {
                Some("stop"@)
            }))
            &&& reason == Some("SAFETY"@) ==> choices[i].finish_reason == Some("content_filter"@)
            &&& reason is Some && reason != Some("STOP"@) && reason != Some("SAFETY"@)
                ==> choices[i].finish_reason == Some(outside::lowercased(reason->0))
            &&& reason is None ==> choices[i].finish_reason is None
        }),
{
    reveal_strlit("STOP");
    reveal_strlit("SAFETY");
    assert("STOP"@.len() == 4 && "SAFETY"@.len() == 6);
}

/// The part says a text.
pub open spec fn says_text(part: JsonView) -> bool {
    !part.says("text"@, None)
}

proof fn lemma_part_texts(parts: Seq<JsonView>)
    ensures
        part_texts(parts).len() == 0 <==> forall|i: int|
            0 <= i < parts.len() ==> !says_text(#[trigger] parts[i]),
    decreases parts.len(),
{
    if parts.len() > 0 {
        let front = parts.drop_last();
        lemma_part_texts(front);
        if part_texts(parts).len() == 0 {
            assert forall|i: int| 0 <= i < parts.len() implies !says_text(#[trigger] parts[i]) by {
                if i < front.len() {
                    assert(!says_text(front[i]));
                }
            }
        } else if forall|i: int| 0 <= i < parts.len() ==> !says_text(#[trigger] parts[i]) {
            assert forall|i: int| 0 <= i < front.len() implies !says_text(#[trigger] front[i]) by {
                assert(!says_text(parts[i]));
            }
            assert(!says_text(parts[parts.len() - 1]));
        }
    }
}

/// One more part with a text puts that text at the end of the candidate's; one more part with a
/// function call puts that call behind the candidate's calls, with the name and with the arguments
/// as JSON text. The text is missing only where there are calls and no text at all.
pub proof fn law_parts_are_read(
    j: JsonView,
    k: JsonView,
    model: Seq<char>,
    millis: i64,
    seconds: i64,
    candidates: Seq<JsonView>,
    longer: Seq<JsonView>,
    i: int,
    content: JsonView,
    extended: JsonView,
    parts: Seq<JsonView>,
    part: JsonView,
    words: Option<Seq<char>>,
    function: JsonView,
    name: Option<Seq<char>>,
    args: JsonView,
)
    requires
        j.lists("candidates"@, candidates),
        k.lists("candidates"@, longer),
        0 <= i < candidates.len(),
        i < longer.len(),
        candidates[i].offers("content"@, content),
        longer[i].offers("content"@, extended),
        content.lists("parts"@, parts),
        extended.lists("parts"@, parts.push(part)),
        part.says("text"@, words),
        function.says("name"@, name),
        function.holds("args"@, args) || !function.has("args"@) && args == JsonView::Object(
            Map::empty(),
        ),
    ensures
        parsed_response(j, model, millis, seconds).choices[i].message
            matches MessageView::Assistant { content: before, tool_calls: calls, name: _ } && (
        parts.len() == 0 ==> before == Some(Seq::<char>::empty()) && calls is None) && (before
            is None <==> calls is Some && forall|p: int|
            0 <= p < parts.len() ==> !says_text(#[trigger] parts[p])) && (parsed_response(
            k,
            model,
            millis,
            seconds,
        ).choices[i].message matches MessageView::Assistant {
            content: after,
            tool_calls: more,
            name: _,
        } && {
            &&& words is Some ==> after == Some(
                (if before is Some {
                    before->0
                } else {
                    Seq::empty()
                }) + words->0,
            )
            &&& words is None && after is Some ==> after == before
            &&& !part.has("functionCall"@) ==> more == calls
            &&& part.holds("functionCall"@, function) ==> more == Some(
                (if calls is Some {
                    calls->0
                } else {
                    Seq::empty()
                }).push(
                    CallView::Custom {
                        id: None,
                        name: if name is Some {
                            name->0
                        } else {
                            Seq::empty()
                        },
                        arguments: if json::json_rendered(args) is Some {
                            json::json_rendered(args)->0
                        } else {
                            "{}"@
                        },
                    },
                ),
            )
        }),
{
    assert(parts.push(part).drop_last() =~= parts);
    if parts.len() == 0 {
        assert(content.field("parts"@).items_or_none() =~= parts);
    }
    lemma_part_texts(parts);
    let texts = part_texts(parts);
    let calls = part_calls(parts);
    if calls.len() == 0 {
        assert(calls =~= Seq::empty());
    }
    if texts.len() == 0 {
        assert(text::joined(texts) =~= Seq::empty());
    }
    match words {
        Some(s) => {
            assert(texts.push(s).drop_last() =~= texts);
            assert(text::joined(texts.push(s)) == text::joined(texts) + s);
        },
        None => {},
    }
    assert(extended.field("parts"@).items_or_none() == parts.push(part));
}

/// One more item with a name is one more model at the end of the live list: its identifier is the
/// name without a leading `models/`, its limits are those that stand there, it is free, and it
/// takes images where its identifier says `pro` or `flash`. An item without a name is passed over.
pub proof fn law_listed_models(
    items: Seq<JsonView>,
    item: JsonView,
    id: Seq<char>,
    title: Option<Seq<char>>,
    description: Option<Seq<char>>,
    inputs: u64,
    outputs: u64,
)
    requires
        item.says("displayName"@, title),
        item.says("description"@, description),
        item.counts("inputTokenLimit"@, inputs),
        item.counts("outputTokenLimit"@, outputs),
    ensures
        listed_models(Seq::<JsonView>::empty()) == Seq::<FullModelInfoView>::empty(),
        item.says("name"@, None) ==> listed_models(items.push(item)) == listed_models(items),
        item.says("name"@, Some("models/"@ + id)) || item.says("name"@, Some(id))
            && !"models/"@.is_prefix_of(id) ==> ({
            let all = listed_models(items.push(item));
            let m = all.last();
            let window = inputs % 0x1_0000_0000;
            let output = outputs % 0x1_0000_0000;
            let sees = text::occurs(id, "pro"@) || text::occurs(id, "flash"@);
            &&& all.len() == listed_models(items).len() + 1
            &&& all.drop_last() == listed_models(items)
            &&& m.id == id
            &&& m.name == (if title is Some {
                title->0
            } else {
                id
            })
            &&& m.description == description
            &&& m.provider == "gemini"@
            &&& m.context_window == window
            &&& m.max_output_tokens == output
            &&& m.created == 0
            &&& m.available
            &&& m.pricing matches Some(p) && p.is_free && p.prompt_tokens == 0
                && p.completion_tokens == 0 && p.image_tokens is None
            &&& m.capabilities.vision == sees
            &&& m.capabilities.input_modalities == (if sees {
                seq!["text"@, "image"@]
            } else {
                seq!["text"@]
            })
            &&& m.capabilities.output_modalities == seq!["text"@]
            &&& m.capabilities.function_calling && m.capabilities.streaming
                && m.capabilities.json_mode && !m.capabilities.caching
            &&& m.capabilities.max_tokens == output
            &&& m.capabilities.context_window == window
            &&& m.capabilities.strengths.len() == 0
        }),
{
    reveal_strlit("models/");
    assert("models/"@.len() == 7);
    assert(items.push(item).drop_last() =~= items);
    json::lemma_low_half(inputs);
    json::lemma_low_half(outputs);
    let long = "models/"@ + id;
    assert(long.subrange(0, 7) =~= "models/"@);
    assert(long.subrange(7, long.len() as int) =~= id);
    if text::begins(id, "models/"@) {
        assert(id.subrange(0, 7) == "models/"@);
        assert("models/"@.is_prefix_of(id));
    }
}

/// What a request is estimated to cost: the tokens of its messages and the tokens that it allows,
/// or a thousand, each at the price of the model's kind.
pub proof fn law_estimates(p: GeminiProvider, request: ChatCompletionRequest, m: Seq<char>)
    requires
        p.model_for(request.model@) == Ok::<Seq<char>, ErrorView>(m),
    ensures
        p.cost(request) matches Ok(e) && {
            &&& e.model == m
            &&& e.provider == "gemini"@
            &&& e.input_tokens == types::prompt_tokens(types::messages_view(request.messages@))
            &&& e.output_tokens == (match request.max_tokens {
                Some(n) => n,
                None => 1000u32,
            })
            &&& e.total_cost == e.input_cost + e.output_cost
            &&& text::occurs(m, "flash"@) ==> e.input_cost == e.input_tokens * 75_000
                && e.output_cost == e.output_tokens * 300_000
            &&& !text::occurs(m, "flash"@) && text::occurs(m, "pro"@) ==> e.input_cost
                == e.input_tokens * 1_250_000 && e.output_cost == e.output_tokens * 5_000_000
            &&& !text::occurs(m, "flash"@) && !text::occurs(m, "pro"@) && text::occurs(m, "1.0"@)
                ==> e.input_cost == e.input_tokens * 500_000 && e.output_cost
                == e.output_tokens * 1_500_000
            &&& !text::occurs(m, "flash"@) && !text::occurs(m, "pro"@)
                && !text::occurs(m, "1.0"@) ==> e.input_cost == e.input_tokens * 1_250_000
                && e.output_cost == e.output_tokens * 5_000_000
        },
{
    wire::law_estimates_add_up(request, m, estimate_prices(m).0, estimate_prices(m).1, "gemini"@);
}

/// A request is for the model that it names, else for the default model, and fails where there is
/// no default.
pub proof fn law_models_are_resolved(p: GeminiProvider, model: Seq<char>)
    ensures
        model.len() > 0 ==> p.model_for(model) == Ok::<Seq<char>, ErrorView>(model),
        model.len() == 0 ==> match p.settings().default_model {
            Some(d) => p.model_for(model) == Ok::<Seq<char>, ErrorView>(d@),
            None => p.model_for(model) == Err::<Seq<char>, ErrorView>(
                (ErrorView::ConfigurationError {
                    message: "No model configured for GeminiProvider — set default_model in GeminiConfig or pass a model in the request"@,
                    field: Some("default_model"@),
                }),
            ),
        },
{
}

/// A body is posted to the model's generating URL, which ends with the key.
pub proof fn law_requests_are_posted(p: GeminiProvider, model: Seq<char>, body: JsonView)
    ensures
        ({
            let r = p.posted(model, body);
            &&& r.method == http::Method::Post
            &&& r.url == "https://generativelanguage.googleapis.com/v1beta/models/"@ + model
                + ":generateContent?key="@ + p.settings().api_key@
            &&& r.headers == seq![("Content-Type"@, "application/json"@)]
            &&& r.body == Some(body)
        }),
{
}

/// The live list stands below the base URL; the key is named where there is one.
pub proof fn law_list_url(p: GeminiProvider)
    ensures
        ({
            let base = match p.settings().base_url {
                Some(u) => u@,
                None => "https://generativelanguage.googleapis.com/v1beta"@,
            };
            &&& p.settings().api_key@.len() == 0 ==> p.models_url() == base + "/models"@
            &&& p.settings().api_key@.len() > 0 ==> p.models_url() == base + "/models?key="@
                + p.settings().api_key@
        }),
{
}

/// The provider is Gemini. It knows no model without asking; a model calls functions where its name
/// in lower case says `1.5`, `2.0`, `flash` or `gemini-pro`. Nothing is said of limits, prices and
/// abilities.
pub proof fn law_what_is_known(p: GeminiProvider, model: Seq<char>)
    ensures
        p.id() == "gemini"@,
        p.catalogue().len() == 0,
        p.calls_functions(model) <==> text::occurs(outside::lowercased(model), "1.5"@)
            || text::occurs(outside::lowercased(model), "2.0"@) || text::occurs(
            outside::lowercased(model),
            "flash"@,
        ) || text::occurs(outside::lowercased(model), "gemini-pro"@),
        p.prices(model) is None,
        p.limits() matches Ok(s) && s.remaining is None && s.limit is None && s.tokens_remaining
            is None && s.tokens_limit is None && s.reset_at is None && s.retry_after is None,
        p.abilities(model) matches Some(a) && !a.function_calling && !a.vision && !a.streaming
            && !a.json_mode && !a.caching && a.max_tokens == 0 && a.context_window == 0,
{
}

/// The list in an answer is made of all its items. Without an answer, or without a list in it, the
/// error says what went wrong.
pub proof fn law_lists_are_read(
    j: JsonView,
    items: Seq<JsonView>,
    words: Seq<char>,
    code: u16,
    body: Option<Seq<char>>,
)
    ensures
        j.holds("models"@, JsonView::Array(items)) ==> models_answer(
            (OutcomeView::Answered { json: j }),
        ) == Ok::<Seq<FullModelInfoView>, ErrorView>(listed_models(items)),
        !j.has_list("models"@) ==> models_answer((OutcomeView::Answered { json: j }))
            == Err::<Seq<FullModelInfoView>, ErrorView>(
            (ErrorView::SerializationError { message: "Missing 'models' array"@, context: None }),
        ),
        models_answer(
            (OutcomeView::Failed { failure: FailureView::Unsent { message: words } }),
        ) == Err::<Seq<FullModelInfoView>, ErrorView>(
            (ErrorView::HttpError {
                message: "Failed to fetch Gemini models: "@ + words,
                status_code: None,
                body: None,
            }),
        ),
        models_answer(
            (OutcomeView::Failed { failure: FailureView::Refused { status: words, code, body } }),
        ) == Err::<Seq<FullModelInfoView>, ErrorView>(
            (ErrorView::HttpError {
                message: "Gemini /models returned "@ + words,
                status_code: Some(code),
                body,
            }),
        ),
        models_answer((OutcomeView::Unreadable { message: words }))
            == Err::<Seq<FullModelInfoView>, ErrorView>(
            (ErrorView::SerializationError {
                message: words,
                context: Some("Failed to parse Gemini models"@),
            }),
        ),
{
}

/// A content is an object with a role and a list of parts, and nothing else.
pub proof fn law_contents_have_parts(m: MessageView, other: Seq<char>)
    requires
        other != "role"@,
        other != "parts"@,
    ensures
        message_content(m).has("role"@),
        message_content(m).has_list("parts"@),
        !message_content(m).has(other),
{
    reveal_strlit("role");
    reveal_strlit("parts");
    assert("role"@.len() == 4 && "parts"@.len() == 5);
}

} // verus!
