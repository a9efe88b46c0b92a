//! The OpenRouter provider, with a referrer for credit tracking, routing, and keys or tokens.

use crate::catalogue::ModelFamily;
use crate::cost_tracker::{CostEstimate, EstimateView};
use crate::error;
use crate::error::{ErrorView, LLMError};
use crate::http;
use crate::http::{
    FailureView, HttpFailure, HttpOutcome, HttpRequest, HttpRequestView, OutcomeView,
};
use crate::json;
use crate::json::{Json, JsonObject, JsonView, NumberView};
use crate::openai;
use crate::outside;
use crate::provider;
use crate::provider::LLMProvider;
use crate::rate_limiter;
use crate::rate_limiter::RateLimitStatus;
use crate::streaming::{ChunkStream, Dialect};
use crate::text;
use crate::types;
use crate::types::{
    CallView, CapabilitiesView, ChatCompletionRequest, ChatCompletionResponse, ChatMessage, Choice,
    ChoiceView, FullModelInfo, FullModelInfoView, FunctionDefinition, MessageRole, MessageView,
    ModelCapabilities, ModelPricing, ResponseView, ToolCall,
};
use crate::wire;
use vstd::prelude::*;

verus! {

/// OpenRouter configuration.
#[derive(Debug, Clone)]
pub struct OpenRouterConfig {
    pub api_key: String,
    pub referrer: Option<String>,
    pub default_route: Option<String>,
    pub default_model: Option<String>,
    pub jwt_token: Option<String>,
}

impl Default for OpenRouterConfig {
    fn default() -> (r: OpenRouterConfig)
        ensures
            r.api_key@ == Seq::<char>::empty(),
            r.referrer is None,
            r.default_route is None,
            r.default_model is None,
            r.jwt_token is None,
    {
        OpenRouterConfig {
            api_key: String::new(),
            referrer: None,
            default_route: None,
            default_model: None,
            jwt_token: None,
        }
    }
}

/// The OpenRouter provider. The name of Anthropic's family of models is given to it.
#[derive(Debug)]
pub struct OpenRouterProvider {
    config: OpenRouterConfig,
    family: ModelFamily,
}

/// A price per token as a list of models quotes it.
#[derive(Debug, Clone, PartialEq)]
pub enum QuotedPrice {
    Text(String),
    Number(serde_json::Number),
    Missing,
}

/// A quoted price, mathematically.
pub enum QuotedPriceView {
    Text(Seq<char>),
    Number(NumberView),
    Missing,
}

impl View for QuotedPrice {
    type V = QuotedPriceView;

    open spec fn view(&self) -> QuotedPriceView {
        match *self {
            QuotedPrice::Text(s) => QuotedPriceView::Text(s@),
            QuotedPrice::Number(n) => QuotedPriceView::Number(json::number_view(n)),
            QuotedPrice::Missing => QuotedPriceView::Missing,
        }
    }
}

/// A model from the live list: all but its prices, and the prices as they are quoted.
#[derive(Debug, Clone, PartialEq)]
pub struct ListedModel {
    pub model: FullModelInfo,
    pub prompt_price: QuotedPrice,
    pub completion_price: QuotedPrice,
}

/// A model from the live list, mathematically.
pub struct ListedModelView {
    pub model: FullModelInfoView,
    pub prompt_price: QuotedPriceView,
    pub completion_price: QuotedPriceView,
}

impl View for ListedModel {
    type V = ListedModelView;

    open spec fn view(&self) -> ListedModelView {
        ListedModelView {
            model: self.model@,
            prompt_price: self.prompt_price@,
            completion_price: self.completion_price@,
        }
    }
}

/// The views of some listed models.
pub open spec fn listed_view(models: Seq<ListedModel>) -> Seq<ListedModelView> {
    models.map_values(|m: ListedModel| m@)
}

/// The price that a member quotes.
pub open spec fn quoted(j: JsonView) -> QuotedPriceView {
    match j {
        JsonView::Text(s) => QuotedPriceView::Text(s),
        JsonView::Number(n) => QuotedPriceView::Number(n),
        _ => QuotedPriceView::Missing,
    }
}

/// `items` followed by `item` where the condition holds.
pub open spec fn with_if(items: Seq<Seq<char>>, condition: bool, item: Seq<char>) -> Seq<Seq<char>> {
    if condition {
        items.push(item)
    } else {
        items
    }
}

/// What a model is good at, by its identifier in lower case and by whether it takes images.
pub open spec fn strengths(lower: Seq<char>, vision: bool) -> Seq<Seq<char>> {
    with_if(
        with_if(
            with_if(
                with_if(
                    Seq::empty(),
                    text::occurs(lower, "coder"@) || text::occurs(lower, "code"@) || text::occurs(
                        lower,
                        "deepseek"@,
                    ),
                    "coding"@,
                ),
                text::occurs(lower, "reason"@) || text::occurs(lower, "o1"@) || text::occurs(
                    lower,
                    "o3"@,
                ) || text::occurs(lower, "think"@),
                "reasoning"@,
            ),
            text::occurs(lower, "math"@),
            "math"@,
        ),
        text::occurs(lower, "vision"@) || vision,
        "vision"@,
    )
}

/// The model that an item of the live list describes; `lower` is its identifier in lower case.
pub open spec fn listed_model(m: JsonView, lower: Seq<char>) -> ListedModelView {
    let id = text::text_or(m.field("id"@).text(), Seq::empty());
    let window = m.field("context_length"@).count_or_zero() as u32;
    let output = (match m.field("top_provider"@).field("max_completion_tokens"@).count() {
        Some(n) => n,
        None => window as u64,
    }) as u32;
    let inputs = wire::texts_among(
        m.field("architecture"@).field("input_modalities"@).items_or_none(),
    );
    let outputs = wire::texts_among(
        m.field("architecture"@).field("output_modalities"@).items_or_none(),
    );
    let params = wire::texts_among(m.field("supported_parameters"@).items_or_none());
    let vision = inputs.contains("image"@);
    ListedModelView {
        model: FullModelInfoView {
            id,
            name: text::text_or(m.field("name"@).text(), id),
            provider: "openrouter"@,
            description: m.field("description"@).text(),
            context_window: window,
            max_output_tokens: output,
            capabilities: CapabilitiesView {
                function_calling: params.contains("tools"@) || params.contains("tool_choice"@),
                vision,
                streaming: true,
                json_mode: params.contains("response_format"@) || params.contains(
                    "structured_outputs"@,
                ),
                caching: false,
                max_tokens: output,
                context_window: window,
                input_modalities: inputs,
                output_modalities: outputs,
                strengths: strengths(lower, vision),
            },
            pricing: None,
            created: m.field("created"@).count_or_zero(),
            available: true,
        },
        prompt_price: quoted(m.field("pricing"@).field("prompt"@)),
        completion_price: quoted(m.field("pricing"@).field("completion"@)),
    }
}

/// The identifier in an item of the live list.
pub open spec fn item_id(m: JsonView) -> Seq<char> {
    text::text_or(m.field("id"@).text(), Seq::empty())
}

/// The models that the items of the live list describe.
pub open spec fn listed_models(items: Seq<JsonView>) -> Seq<ListedModelView> {
    items.map_values(|m: JsonView| listed_model(m, outside::lowercased(item_id(m))))
}

/// The models in the answer to a request for the live list, or the error in their place.
pub open spec fn models_answer(outcome: OutcomeView) -> Result<Seq<ListedModelView>, ErrorView> {
    match outcome {
        OutcomeView::Failed { failure: FailureView::Unsent { message } } => Err(
            ErrorView::HttpError {
                message: "Failed to fetch OpenRouter models: "@ + message,
                status_code: None,
                body: None,
            },
        ),
        OutcomeView::Failed { failure: FailureView::Refused { status, code, body } } => Err(
            ErrorView::HttpError {
                message: "OpenRouter /models returned "@ + status + ": "@ + text::text_or(
                    body,
                    Seq::empty(),
                ),
                status_code: Some(code),
                body,
            },
        ),
        OutcomeView::Unreadable { message } => Err(
            ErrorView::SerializationError {
                message,
                context: Some("Failed to parse OpenRouter models response"@),
            },
        ),
        OutcomeView::Answered { json } => match json.field("data"@).items() {
            Some(items) => Ok(listed_models(items)),
            None => Err(
                ErrorView::SerializationError {
                    message: "Missing 'data' array in models response"@,
                    context: None,
                },
            ),
        },
    }
}

/// The role under which a message is sent. Results of functions and tools come from the user.
pub open spec fn simple_role(role: MessageRole) -> Seq<char> {
    match role {
        MessageRole::System => "system"@,
        MessageRole::User => "user"@,
        MessageRole::Assistant => "assistant"@,
        MessageRole::Function => "user"@,
        MessageRole::Tool => "user"@,
    }
}

/// A message as nothing but its role and its text.
pub open spec fn simple_message(m: MessageView) -> JsonView {
    JsonView::Object(
        wire::role_content(
            simple_role(m.role()),
            JsonView::Text(text::text_or(m.content(), Seq::empty())),
        ),
    )
}

/// The messages as nothing but their roles and their texts.
pub open spec fn simple_messages(messages: Seq<MessageView>) -> JsonView {
    JsonView::Array(messages.map_values(|m: MessageView| simple_message(m)))
}

/// The body of a request for a completion.
pub open spec fn chat_body(request: ChatCompletionRequest, model: Seq<char>) -> JsonView {
    JsonView::Object(
        wire::with_penalties(
            wire::with_sampling(
                Map::empty().insert("model"@, JsonView::Text(model)).insert(
                    "messages"@,
                    simple_messages(types::messages_view(request.messages@)),
                ),
                "max_tokens"@,
                "top_p"@,
                request,
            ),
            request,
        ),
    )
}

/// The body of a request for a streamed completion.
pub open spec fn stream_body(request: ChatCompletionRequest, model: Seq<char>) -> JsonView {
    JsonView::Object(
        wire::with_sampling(
            Map::empty().insert("model"@, JsonView::Text(model)).insert(
                "messages"@,
                simple_messages(types::messages_view(request.messages@)),
            ).insert("stream"@, JsonView::Bool(true)),
            "max_tokens"@,
            "top_p"@,
            request,
        ),
    )
}

/// The body of a request for a completion with functions.
pub open spec fn functions_body(
    request: ChatCompletionRequest,
    model: Seq<char>,
    functions: Seq<FunctionDefinition>,
) -> JsonView {
    JsonView::Object(
        wire::with_sampling(
            Map::empty().insert("model"@, JsonView::Text(model)).insert(
                "messages"@,
                wire::messages_json(types::messages_view(request.messages@)),
            ).insert("tools"@, wire::tools_json(functions)),
            "max_tokens"@,
            "top_p"@,
            request,
        ).union_prefer_right(request.extra_params@),
    )
}

/// The message in an answer, by the role that it names.
pub open spec fn parsed_message(msg: JsonView) -> MessageView {
    let content = text::text_or(msg.field("content"@).text(), Seq::empty());
    let role = text::text_or(msg.field("role"@).text(), "assistant"@);
    if role == "system"@ {
        MessageView::System { content, name: None }
    } else if role == "user"@ {
        MessageView::User { content, name: None }
    } else {
        types::assistant_text(content)
    }
}

/// A choice in an answer.
pub open spec fn parsed_choice(index: int, choice: JsonView) -> ChoiceView {
    ChoiceView {
        index: index as u32,
        message: parsed_message(choice.field("message"@)),
        finish_reason: choice.field("finish_reason"@).text(),
        logprobs: None,
    }
}

/// The tool call in one item of an answer. An item without a function is none; an empty
/// identifier counts as none.
pub open spec fn parsed_call(tc: JsonView) -> Option<CallView> {
    match tc.lookup("function"@) {
        Some(func) => {
            let id = text::text_or(tc.field("id"@).text(), Seq::empty());
            Some(
                CallView::Custom {
                    id: if id.len() == 0 {
                        None
                    } else {
                        Some(id)
                    },
                    name: text::text_or(func.field("name"@).text(), Seq::empty()),
                    arguments: text::text_or(func.field("arguments"@).text(), "{}"@),
                },
            )
        },
        None => None,
    }
}

/// The tool calls in some items, in order.
pub open spec fn parsed_calls(items: Seq<JsonView>) -> Seq<CallView>
    decreases items.len(),
{
    if items.len() == 0 {
        Seq::empty()
    } else {
        wire::and_then_one(parsed_calls(items.drop_last()), parsed_call(items.last()))
    }
}

/// A choice in an answer to a request with functions.
pub open spec fn parsed_functions_choice(index: int, choice: JsonView) -> ChoiceView {
    let msg = choice.field("message"@);
    ChoiceView {
        index: index as u32,
        message: MessageView::Assistant {
            content: msg.field("content"@).text(),
            tool_calls: openai::some_calls(
                parsed_calls(msg.field("tool_calls"@).items_or_none()),
            ),
            name: None,
        },
        finish_reason: choice.field("finish_reason"@).text(),
        logprobs: None,
    }
}

/// The choices in an answer.
pub open spec fn parsed_choices(items: Seq<JsonView>, functions: bool) -> Seq<ChoiceView> {
    Seq::new(
        items.len(),
        |i: int|
            if functions {
                parsed_functions_choice(i, items[i])
            } else {
                parsed_choice(i, items[i])
            },
    )
}

/// The response in an answer, to a request with functions or without.
pub open spec fn parsed_response(j: JsonView, model: Seq<char>, functions: bool) -> ResponseView {
    ResponseView {
        id: text::text_or(j.field("id"@).text(), "unknown"@),
        object: "chat.completion"@,
        created: j.field("created"@).count_or_zero(),
        model: text::text_or(j.field("model"@).text(), model),
        choices: parsed_choices(j.field("choices"@).items_or_none(), functions),
        usage: wire::usage_of(j),
        system_fingerprint: j.field("system_fingerprint"@).text(),
    }
}

/// What is said where neither the request nor the configuration names a model.
pub open spec fn no_model_message() -> Seq<char> {
    "No model configured for OpenRouterProvider — set default_model in OpenRouterConfig or pass a model in the request"@
}

/// The prices of input and output tokens that estimates go by; `family` is the name of
/// Anthropic's family of models.
pub open spec fn estimate_prices(model: Seq<char>, family: Seq<char>) -> (u64, u64) {
    if text::occurs(model, "gpt-4o"@) {
        (5_000_000, 15_000_000)
    } else if text::occurs(model, family + "-3.5-sonnet"@) {
        (3_000_000, 15_000_000)
    } else if text::occurs(model, family + "-3-opus"@) {
        (15_000_000, 75_000_000)
    } else if text::occurs(model, "gemini"@) {
        (1_250_000, 5_000_000)
    } else if text::occurs(model, "llama"@) {
        (500_000, 1_500_000)
    } else if text::occurs(model, "deepseek"@) {
        (140_000, 280_000)
    } else if text::occurs(model, "mistral"@) {
        (250_000, 250_000)
    } else {
        (10_000_000, 30_000_000)
    }
}

/// The models that are known to be supported without asking; `family` is the name of Anthropic's
/// family of models.
pub open spec fn supported(family: Seq<char>) -> Seq<Seq<char>> {
    seq![
        "openai/gpt-4o"@,
        "openai/gpt-4o-mini"@,
        "anthropic/"@ + family + "-3.5-sonnet"@,
        "anthropic/"@ + family + "-3-opus"@,
        "google/gemini-1.5-pro"@,
        "deepseek/deepseek-chat"@,
        "meta-llama/llama-3.1-70b"@,
        "mistralai/mistral-7b"@,
        "cohere/command-r"@,
    ]
}

fn read_quote(j: &Json) -> (r: QuotedPrice)
    ensures
        r@ == quoted(j@),
{
    match j {
        Json::Text(s) => QuotedPrice::Text(s.clone()),
        Json::Number(n) => QuotedPrice::Number(n.clone()),
        _ => QuotedPrice::Missing,
    }
}

/// Adds `item` where the condition holds.
pub fn push_if(items: &mut Vec<String>, condition: bool, item: &str)
    ensures
        text::texts(final(items)@) == with_if(text::texts(old(items)@), condition, item@),
{
    if condition {
        items.push(item.to_owned());
        assert(text::texts(items@) =~= text::texts(old(items)@).push(item@));
    }
}

/// What a model is good at, by its identifier in lower case and by whether it takes images.
pub fn derive_strengths(lower: &str, vision: bool) -> (r: Vec<String>)
    ensures
        text::texts(r@) == strengths(lower@, vision),
{
    let mut out: Vec<String> = Vec::new();
    assert(text::texts(out@) =~= Seq::empty());
    push_if(
        &mut out,
        text::contains(lower, "coder") || text::contains(lower, "code") || text::contains(
            lower,
            "deepseek",
        ),
        "coding",
    );
    push_if(
        &mut out,
        text::contains(lower, "reason") || text::contains(lower, "o1") || text::contains(
            lower,
            "o3",
        ) || text::contains(lower, "think"),
        "reasoning",
    );
    push_if(&mut out, text::contains(lower, "math"), "math");
    push_if(&mut out, text::contains(lower, "vision") || vision, "vision");
    out
}

/// The model that an item of the live list describes; `lower` is its identifier in lower case.
pub fn read_listed_model(m: &Json, lower: &str) -> (r: ListedModel)
    ensures
        r@ == listed_model(m@, lower@),
{
    let id = m.at("id").text_or("");
    proof {
        reveal_strlit("");
        assert(""@ =~= Seq::<char>::empty());
    }
    let window: u32 = m.at("context_length").count_or_zero() as u32;
    let output: u32 = (match m.at("top_provider").at("max_completion_tokens").as_count() {
        Some(n) => n,
        None => window as u64,
    }) as u32;
    let inputs = wire::read_texts(m.at("architecture").at("input_modalities"));
    let outputs = wire::read_texts(m.at("architecture").at("output_modalities"));
    let params = wire::read_texts(m.at("supported_parameters"));
    let vision = provider::listed(&inputs, "image");
    let tools = provider::listed(&params, "tools") || provider::listed(&params, "tool_choice");
    let json_mode = provider::listed(&params, "response_format") || provider::listed(
        &params,
        "structured_outputs",
    );
    ListedModel {
        model: FullModelInfo {
            id: id.to_owned(),
            name: m.at("name").text_or(id).to_owned(),
            provider: "openrouter".to_owned(),
            description: text::own_opt(m.at("description").as_text()),
            context_window: window,
            max_output_tokens: output,
            capabilities: ModelCapabilities {
                function_calling: tools,
                vision,
                streaming: true,
                json_mode,
                caching: false,
                max_tokens: output,
                context_window: window,
                input_modalities: inputs,
                output_modalities: outputs,
                strengths: derive_strengths(lower, vision),
            },
            pricing: None,
            created: m.at("created").count_or_zero(),
            available: true,
        },
        prompt_price: read_quote(m.at("pricing").at("prompt")),
        completion_price: read_quote(m.at("pricing").at("completion")),
    }
}

/// A message as nothing but its role and its text.
pub fn serialize_simple(msg: &ChatMessage) -> (r: Json)
    ensures
        r@ == simple_message(msg@),
{
    let role = match msg.role() {
        MessageRole::System => "system",
        MessageRole::User => "user",
        MessageRole::Assistant => "assistant",
        MessageRole::Function => "user",
        MessageRole::Tool => "user",
    };
    let content = match msg.content() {
        Some(c) => c.to_owned(),
        None => String::new(),
    };
    Json::Object(wire::role_object(role, Json::Text(content)))
}

fn serialize_all_simple(messages: &Vec<ChatMessage>) -> (r: Json)
    ensures
        r@ == simple_messages(types::messages_view(messages@)),
{
    let mut items: Vec<Json> = Vec::new();
    let mut i: usize = 0;
    while i < messages.len()
        invariant
            i <= messages@.len(),
            items@.len() == i,
            forall|j: int| 0 <= j < i ==> (#[trigger] items@[j])@ == simple_message(messages@[j]@),
        decreases messages@.len() - i,
    {
        let item = serialize_simple(&messages[i]);
        items.push(item);
        i = i + 1;
    }
    assert(json::items_view(items@) =~= types::messages_view(messages@).map_values(
        |m: MessageView| simple_message(m),
    ));
    Json::Array(items)
}

fn parse_message(msg: &Json) -> (r: ChatMessage)
    ensures
        r@ == parsed_message(msg@),
{
    proof {
        reveal_strlit("");
        assert(""@ =~= Seq::<char>::empty());
    }
    let content = msg.at("content").text_or("");
    let role = msg.at("role").text_or("assistant");
    if text::same(role, "system") {
        ChatMessage::system(content)
    } else if text::same(role, "user") {
        ChatMessage::user(content)
    } else {
        ChatMessage::assistant(content)
    }
}

fn parse_call(tc: &Json) -> (r: Option<ToolCall>)
    ensures
        (match r {
            Some(c) => Some(c@),
            None => None,
        }) == parsed_call(tc@),
{
    proof {
        reveal_strlit("");
        assert(""@ =~= Seq::<char>::empty());
    }
    match tc.get("function") {
        Some(func) => {
            let id = tc.at("id").text_or("");
            let name = func.at("name").text_or("").to_owned();
            let arguments = func.at("arguments").text_or("{}").to_owned();
            Some(
                types::custom_call(
                    if id.unicode_len() == 0 {
                        None
                    } else {
                        Some(id.to_owned())
                    },
                    name,
                    arguments,
                ),
            )
        },
        None => None,
    }
}

fn parse_calls(items: &Vec<Json>) -> (r: Vec<ToolCall>)
    ensures
        types::calls_view(r@) == parsed_calls(json::items_view(items@)),
{
    let mut out: Vec<ToolCall> = Vec::new();
    let mut i: usize = 0;
    let ghost all = json::items_view(items@);
    assert(all.take(0) =~= Seq::empty());
    assert(types::calls_view(out@) =~= Seq::empty());
    while i < items.len()
        invariant
            i <= items@.len(),
            all == json::items_view(items@),
            types::calls_view(out@) == parsed_calls(all.take(i as int)),
        decreases items@.len() - i,
    {
        assert(all.take(i + 1).drop_last() =~= all.take(i as int));
        assert(all.take(i + 1).last() == items@[i as int]@);
        match parse_call(&items[i]) {
            Some(c) => {
                let ghost before = out@;
                out.push(c);
                assert(types::calls_view(out@) =~= types::calls_view(before).push(c@));
            },
            None => {},
        }
        i = i + 1;
    }
    assert(all.take(i as int) =~= all);
    out
}

fn parse_functions_message(msg: &Json) -> (r: ChatMessage)
    ensures
        r@ == (MessageView::Assistant {
            content: msg@.field("content"@).text(),
            tool_calls: openai::some_calls(
                parsed_calls(msg@.field("tool_calls"@).items_or_none()),
            ),
            name: None,
        }),
{
    let content = text::own_opt(msg.at("content").as_text());
    let tool_calls = match msg.at("tool_calls").as_items() {
        Some(items) => {
            let calls = parse_calls(items);
            assert(types::calls_view(calls@).len() == calls@.len());
            if calls.len() == 0 {
                None
            } else {
                Some(calls)
            }
        },
        None => {
            assert(msg@.field("tool_calls"@).items_or_none() =~= Seq::empty());
            None
        },
    };
    ChatMessage::Assistant { content, tool_calls, name: None }
}

/// The response in an answer, to a request with functions or without.
pub fn build_response(j: &Json, model: &str, functions: bool) -> (r: ChatCompletionResponse)
    requires
        wire::usage_complete(j@),
    ensures
        r@ == parsed_response(j@, model@, functions),
{
    let mut choices: Vec<Choice> = Vec::new();
    let ghost all = j@.field("choices"@).items_or_none();
    match j.at("choices").as_items() {
        Some(items) => {
            let mut i: usize = 0;
            while i < items.len()
                invariant
                    i <= items@.len(),
                    all == json::items_view(items@),
                    choices@.len() == i,
                    forall|k: int|
                        0 <= k < i ==> (#[trigger] choices@[k])@ == (if functions {
                            parsed_functions_choice(k, all[k])
                        } else {
                            parsed_choice(k, all[k])
                        }),
                decreases items@.len() - i,
            {
                let choice = &items[i];
                assert(all[i as int] == choice@);
                let message = if functions {
                    parse_functions_message(choice.at("message"))
                } else {
                    parse_message(choice.at("message"))
                };
                choices.push(
                    Choice {
                        index: i as u32,
                        message,
                        finish_reason: text::own_opt(choice.at("finish_reason").as_text()),
                        logprobs: None,
                    },
                );
                i = i + 1;
            }
        },
        None => {
            assert(all =~= Seq::empty());
        },
    }
    assert(types::choices_view(choices@) =~= parsed_choices(all, functions));
    ChatCompletionResponse {
        id: j.at("id").text_or("unknown").to_owned(),
        object: "chat.completion".to_owned(),
        created: j.at("created").count_or_zero(),
        model: j.at("model").text_or(model).to_owned(),
        choices,
        usage: wire::read_usage(j),
        system_fingerprint: text::own_opt(j.at("system_fingerprint").as_text()),
    }
}

impl OpenRouterProvider {
    /// The configuration.
    pub closed spec fn settings(&self) -> OpenRouterConfig {
        self.config
    }

    /// Anthropic's family of models.
    pub closed spec fn models(&self) -> ModelFamily {
        self.family
    }

    /// The model that a request is for.
    pub open spec fn model_for(&self, model: Seq<char>) -> Result<Seq<char>, ErrorView> {
        wire::resolved(model, text::opt_text(self.settings().default_model), no_model_message())
    }

    /// The headers of a request: a token goes before the key, referrer and route stand where they
    /// are set.
    pub open spec fn headers(&self) -> Seq<(Seq<char>, Seq<char>)> {
        let start = seq![
            http::json_header(),
            (
                "Authorization"@,
                "Bearer "@ + text::text_or(
                    text::opt_text(self.settings().jwt_token),
                    self.settings().api_key@,
                ),
            ),
        ];
        let referred = match self.settings().referrer {
            Some(referrer) => start.push(("HTTP-Referer"@, referrer@)),
            None => start,
        };
        match self.settings().default_route {
            Some(route) => referred.push(("OpenRouter-Router"@, route@)),
            None => referred,
        }
    }

    /// The request that posts a body to the chat API.
    pub open spec fn posted(&self, body: JsonView) -> HttpRequestView {
        wire::posting("https://openrouter.ai/api/v1/chat/completions"@, self.headers(), body)
    }

    /// A provider with this key and the default configuration.
    pub fn new(api_key: &str, family: ModelFamily) -> (r: Result<OpenRouterProvider, LLMError>)
        ensures
            r matches Ok(p) && p.models() == family && p.settings().api_key@ == api_key@ && p.settings().referrer is None
                && p.settings().default_route is None && p.settings().default_model is None
                && p.settings().jwt_token is None,
    {
        let mut config = OpenRouterConfig::default();
        config.api_key = api_key.to_owned();
        Ok(OpenRouterProvider { config, family })
    }

    /// A provider with this configuration, which has to hold a key or a token.
    pub fn with_config(config: OpenRouterConfig, family: ModelFamily) -> (r: Result<
        OpenRouterProvider,
        LLMError,
    >)
        ensures
            ({
                let missing = config.api_key@.len() == 0 && text::text_or(
                    text::opt_text(config.jwt_token),
                    Seq::empty(),
                ).len() == 0;
                match r {
                    Ok(p) => !missing && p.settings() == config && p.models() == family,
                    Err(e) => missing && e@ == (ErrorView::ConfigurationError {
                        message: "OpenRouter API key or JWT token is required"@,
                        field: Some("api_key"@),
                    }),
                }
            }),
    {
        let no_token = match &config.jwt_token {
            Some(t) => t.as_str().unicode_len() == 0,
            None => true,
        };
        if config.api_key.as_str().unicode_len() == 0 && no_token {
            return Err(
                error::configuration_error(
                    "OpenRouter API key or JWT token is required",
                    "api_key",
                ),
            );
        }
        Ok(OpenRouterProvider { config, family })
    }

    /// Sets the referrer for credit tracking.
    pub fn with_referrer(self, referrer: &str) -> (r: OpenRouterProvider)
        ensures
            text::opt_text(r.settings().referrer) == Some(referrer@),
            r.settings().api_key == self.settings().api_key,
            r.settings().default_route == self.settings().default_route,
            r.settings().default_model == self.settings().default_model,
            r.settings().jwt_token == self.settings().jwt_token,
            r.models() == self.models(),
    {
        let mut config = self.config;
        config.referrer = Some(referrer.to_owned());
        OpenRouterProvider { config, family: self.family }
    }

    /// Sets the default route.
    pub fn with_route(self, route: &str) -> (r: OpenRouterProvider)
        ensures
            text::opt_text(r.settings().default_route) == Some(route@),
            r.settings().api_key == self.settings().api_key,
            r.settings().referrer == self.settings().referrer,
            r.settings().default_model == self.settings().default_model,
            r.settings().jwt_token == self.settings().jwt_token,
            r.models() == self.models(),
    {
        let mut config = self.config;
        config.default_route = Some(route.to_owned());
        OpenRouterProvider { config, family: self.family }
    }

    fn resolve(&self, model: &String) -> (r: Result<String, LLMError>)
        ensures
            http::seen(r) == self.model_for(model@),
    {
        wire::resolve_model(
            model,
            &self.config.default_model,
            "No model configured for OpenRouterProvider — set default_model in OpenRouterConfig or pass a model in the request",
        )
    }

    fn chat_post(&self, body: Json) -> (r: HttpRequest)
        ensures
            r@ == self.posted(body@),
    {
        let mut headers: Vec<(String, String)> = Vec::new();
        let secret = match &self.config.jwt_token {
            Some(jwt) => jwt.as_str(),
            None => self.config.api_key.as_str(),
        };
        let authorization = text::cat("Bearer ", secret);
        headers.push(http::header("Content-Type", "application/json"));
        headers.push(http::header("Authorization", authorization.as_str()));
        match &self.config.referrer {
            Some(referrer) => {
                headers.push(http::header("HTTP-Referer", referrer.as_str()));
            },
            None => {},
        }
        match &self.config.default_route {
            Some(route) => {
                headers.push(http::header("OpenRouter-Router", route.as_str()));
            },
            None => {},
        }
        assert(http::headers_view(headers@) =~= self.headers());
        wire::post("https://openrouter.ai/api/v1/chat/completions".to_owned(), headers, body)
    }

    /// The request for the live list of models.
    pub fn list_models_request(&self) -> (r: HttpRequest)
        ensures
            r@ == wire::getting(
                "https://openrouter.ai/api/v1/models"@,
                seq![http::json_header()],
            ),
    {
        let mut headers: Vec<(String, String)> = Vec::new();
        headers.push(http::header("Content-Type", "application/json"));
        assert(http::headers_view(headers@) =~= seq![http::json_header()]);
        wire::get("https://openrouter.ai/api/v1/models".to_owned(), headers)
    }

    /// The models in the answer to a request for the live list.
    pub fn list_models_response(&self, outcome: HttpOutcome) -> (r: Result<
        Vec<ListedModel>,
        LLMError,
    >)
        ensures
            (match r {
                Ok(models) => Ok(listed_view(models@)),
                Err(e) => Err(e@),
            }) == models_answer(outcome@),
    {
        let json = match outcome {
            HttpOutcome::Failed { failure: HttpFailure::Unsent { message } } => return Err(
                LLMError::HttpError {
                    message: text::cat("Failed to fetch OpenRouter models: ", message.as_str()),
                    status_code: None,
                    body: None,
                },
            ),
            HttpOutcome::Failed { failure: HttpFailure::Refused { status, code, body } } => {
                let opening = text::cat3("OpenRouter /models returned ", status.as_str(), ": ");
                let message = match &body {
                    Some(b) => text::cat(opening.as_str(), b.as_str()),
                    None => opening,
                };
                proof {
                    let whole = "OpenRouter /models returned "@ + status@ + ": "@;
                    assert(whole + Seq::<char>::empty() =~= whole);
                }
                return Err(LLMError::HttpError { message, status_code: Some(code), body });
            },
            HttpOutcome::Unreadable { message } => return Err(
                LLMError::SerializationError {
                    message,
                    context: Some("Failed to parse OpenRouter models response".to_owned()),
                },
            ),
            HttpOutcome::Answered { json } => json,
        };
        let data = match json.at("data").as_items() {
            Some(items) => items,
            None => return Err(
                LLMError::SerializationError {
                    message: "Missing 'data' array in models response".to_owned(),
                    context: None,
                },
            ),
        };
        let mut models: Vec<ListedModel> = Vec::new();
        let mut i: usize = 0;
        let ghost all = json::items_view(data@);
        proof {
            reveal_strlit("");
            assert(""@ =~= Seq::<char>::empty());
        }
        while i < data.len()
            invariant
                i <= data@.len(),
                all == json::items_view(data@),
                models@.len() == i,
                ""@ == Seq::<char>::empty(),
                forall|k: int|
                    0 <= k < i ==> (#[trigger] models@[k])@ == listed_model(
                        all[k],
                        outside::lowercased(item_id(all[k])),
                    ),
            decreases data@.len() - i,
        {
            let m = &data[i];
            assert(all[i as int] == m@);
            let lower = outside::to_lowercase(m.at("id").text_or(""));
            models.push(read_listed_model(m, lower.as_str()));
            i = i + 1;
        }
        assert(listed_view(models@) =~= listed_models(all));
        Ok(models)
    }

    /// The request for a completion, and the model that it is for.
    pub fn chat_completion_request(&self, request: &ChatCompletionRequest) -> (r: Result<
        (HttpRequest, String),
        LLMError,
    >)
        ensures
            match self.model_for(request.model@) {
                Ok(model) => r matches Ok(p) && p.0@ == self.posted(chat_body(*request, model))
                    && p.1@ == model,
                Err(e) => r matches Err(x) && x@ == e,
            },
    {
        let model = match self.resolve(&request.model) {
            Ok(m) => m,
            Err(e) => return Err(e),
        };
        let mut body = JsonObject::new();
        body.set("model", Json::Text(model.clone()));
        body.set("messages", serialize_all_simple(&request.messages));
        wire::set_sampling(&mut body, "max_tokens", "top_p", request);
        wire::set_penalties(&mut body, request);
        Ok((self.chat_post(Json::Object(body)), model))
    }

    /// The request for a completion with functions, and the model that it is for.
    pub fn chat_completion_with_functions_request(
        &self,
        request: &ChatCompletionRequest,
        functions: &Vec<FunctionDefinition>,
    ) -> (r: Result<(HttpRequest, String), LLMError>)
        ensures
            match self.model_for(request.model@) {
                Ok(model) => r matches Ok(p) && p.0@ == self.posted(
                    functions_body(*request, model, functions@),
                ) && p.1@ == model,
                Err(e) => r matches Err(x) && x@ == e,
            },
    {
        let model = match self.resolve(&request.model) {
            Ok(m) => m,
            Err(e) => return Err(e),
        };
        let mut body = JsonObject::new();
        body.set("model", Json::Text(model.clone()));
        body.set("messages", wire::serialize_messages(&request.messages));
        body.set("tools", wire::tools(functions));
        wire::set_sampling(&mut body, "max_tokens", "top_p", request);
        body.set_all(&request.extra_params);
        Ok((self.chat_post(Json::Object(body)), model))
    }

    /// The response that comes of a request for a completion, with functions or without.
    pub fn chat_completion_response(
        &self,
        model: &str,
        functions: bool,
        outcome: HttpOutcome,
    ) -> (r: Result<ChatCompletionResponse, LLMError>)
        requires
            outcome@ matches OutcomeView::Answered { json } ==> wire::usage_complete(json),
        ensures
            http::seen(r) == (match http::answer(
                outcome@,
                "OpenRouter API error: "@,
                "Failed to parse OpenRouter response"@,
            ) {
                Ok(j) => Ok(parsed_response(j, model@, functions)),
                Err(e) => Err(e),
            }),
    {
        match http::read_answer(
            outcome,
            "OpenRouter API error: ",
            "Failed to parse OpenRouter response",
        ) {
            Ok(j) => Ok(build_response(&j, model, functions)),
            Err(e) => Err(e),
        }
    }

    /// The request for a streamed completion, and the stream that its answer feeds.
    pub fn chat_completion_stream_request(&self, request: &ChatCompletionRequest) -> (r: Result<
        (HttpRequest, ChunkStream),
        LLMError,
    >)
        ensures
            match self.model_for(request.model@) {
                Ok(model) => r matches Ok(p) && p.0@ == self.posted(stream_body(*request, model))
                    && p.1.dialect() == Dialect::OpenRouter && p.1.model() == model && p.1.buffer()
                    == Seq::<char>::empty() && p.1.count() == 0,
                Err(e) => r matches Err(x) && x@ == e,
            },
    {
        let model = match self.resolve(&request.model) {
            Ok(m) => m,
            Err(e) => return Err(e),
        };
        let mut body = JsonObject::new();
        body.set("model", Json::Text(model.clone()));
        body.set("messages", serialize_all_simple(&request.messages));
        body.set("stream", Json::Bool(true));
        wire::set_sampling(&mut body, "max_tokens", "top_p", request);
        Ok(
            (
                self.chat_post(Json::Object(body)),
                ChunkStream::new(Dialect::OpenRouter, model.as_str()),
            ),
        )
    }

    /// The error of a streamed completion that did not start.
    pub fn chat_completion_stream_error(&self, failure: HttpFailure) -> (r: LLMError)
        ensures
            r@ == http::failure_error(failure@, "OpenRouter API error: "@),
    {
        http::error_of_failure(failure, "OpenRouter API error: ")
    }
}

impl LLMProvider for OpenRouterProvider {
    open spec fn id(&self) -> Seq<char> {
        "openrouter"@
    }

    open spec fn catalogue(&self) -> Seq<Seq<char>> {
        supported(self.models().id@)
    }

    open spec fn calls_functions(&self, model: Seq<char>) -> bool {
        true
    }

    open spec fn prices(&self, model: Seq<char>) -> Option<ModelPricing> {
        None
    }

    open spec fn abilities(&self, model: Seq<char>) -> Option<CapabilitiesView> {
        Some(types::no_capabilities())
    }

    open spec fn limits(&self) -> Result<RateLimitStatus, ErrorView> {
        Ok(rate_limiter::unknown_status())
    }

    open spec fn cost(&self, request: ChatCompletionRequest) -> Result<EstimateView, ErrorView> {
        match self.model_for(request.model@) {
            Ok(model) => Ok(
                wire::estimated(
                    request,
                    model,
                    estimate_prices(model, self.models().id@).0,
                    estimate_prices(model, self.models().id@).1,
                    "openrouter"@,
                ),
            ),
            Err(e) => Err(e),
        }
    }

    fn name(&self) -> (r: &str) {
        "openrouter"
    }

    fn supported_models(&self) -> (r: Vec<String>) {
        let family = self.family.id.as_str();
        let mut out: Vec<String> = Vec::new();
        out.push("openai/gpt-4o".to_owned());
        out.push("openai/gpt-4o-mini".to_owned());
        out.push(text::cat3("anthropic/", family, "-3.5-sonnet"));
        out.push(text::cat3("anthropic/", family, "-3-opus"));
        out.push("google/gemini-1.5-pro".to_owned());
        out.push("deepseek/deepseek-chat".to_owned());
        out.push("meta-llama/llama-3.1-70b".to_owned());
        out.push("mistralai/mistral-7b".to_owned());
        out.push("cohere/command-r".to_owned());
        assert(text::texts(out@) =~= supported(self.models().id@));
        out
    }

    fn get_model_pricing(&self, model: &str) -> (r: Option<ModelPricing>) {
        None
    }

    fn get_model_capabilities(&self, model: &str) -> (r: Option<ModelCapabilities>) {
        Some(ModelCapabilities::default())
    }

    fn supports_function_calling(&self, model: &str) -> (r: bool) {
        true
    }

    fn rate_limit_status(&self) -> (r: Result<RateLimitStatus, LLMError>) {
        Ok(RateLimitStatus::unknown())
    }

    fn estimate_cost(&self, request: &ChatCompletionRequest) -> (r: Result<CostEstimate, LLMError>) {
        let resolved = match self.resolve(&request.model) {
            Ok(m) => m,
            Err(e) => return Err(e),
        };
        let model = resolved.as_str();
        let sonnet = text::cat(self.family.id.as_str(), "-3.5-sonnet");
        let opus = text::cat(self.family.id.as_str(), "-3-opus");
        let prices: (u64, u64) = if text::contains(model, "gpt-4o") {
            (5_000_000, 15_000_000)
        } else if text::contains(model, sonnet.as_str()) {
            (3_000_000, 15_000_000)
        } else if text::contains(model, opus.as_str()) {
            (15_000_000, 75_000_000)
        } else if text::contains(model, "gemini") {
            (1_250_000, 5_000_000)
        } else if text::contains(model, "llama") {
            (500_000, 1_500_000)
        } else if text::contains(model, "deepseek") {
            (140_000, 280_000)
        } else if text::contains(model, "mistral") {
            (250_000, 250_000)
        } else {
            (10_000_000, 30_000_000)
        };
        Ok(wire::estimate(request, model, prices.0, prices.1, "openrouter"))
    }
}

/// What is sent for a completion: the model, the messages and each parameter that the request sets.
pub proof fn law_chat_bodies(request: ChatCompletionRequest, model: Seq<char>, other: Seq<char>)
    requires
        other != "model"@,
        other != "messages"@,
        other != "max_tokens"@,
        other != "temperature"@,
        other != "top_p"@,
        other != "n"@,
        other != "stop"@,
        other != "presence_penalty"@,
        other != "frequency_penalty"@,
    ensures
        ({
            let body = chat_body(request, model);
            &&& body.holds("model"@, JsonView::Text(model))
            &&& body.holds("messages"@, simple_messages(types::messages_view(request.messages@)))
            &&& wire::carries_count(body, "max_tokens"@, request.max_tokens)
            &&& wire::carries_real(body, "temperature"@, request.temperature)
            &&& wire::carries_real(body, "top_p"@, request.top_p)
            &&& wire::carries_count(body, "n"@, request.n)
            &&& wire::carries_texts(body, "stop"@, request.stop@)
            &&& wire::carries_real(body, "presence_penalty"@, request.presence_penalty)
            &&& wire::carries_real(body, "frequency_penalty"@, request.frequency_penalty)
            &&& !body.has(other)
        }),
{
    reveal_strlit("model");
    reveal_strlit("messages");
    reveal_strlit("max_tokens");
    reveal_strlit("temperature");
    reveal_strlit("top_p");
    reveal_strlit("n");
    reveal_strlit("stop");
    reveal_strlit("presence_penalty");
    reveal_strlit("frequency_penalty");
    assert("model"@.len() == 5);
    assert("messages"@.len() == 8);
    assert("max_tokens"@.len() == 10);
    assert("temperature"@.len() == 11);
    assert("top_p"@.len() == 5);
    assert("n"@.len() == 1);
    assert("stop"@.len() == 4);
    assert("presence_penalty"@.len() == 16);
    assert("frequency_penalty"@.len() == 17);
    assert("model"@[0] != "top_p"@[0]);
    wire::law_stops(request.stop@);
}

/// What is sent for a completion with functions: the model, the messages, the tools, and how to
/// sample where the request says so. Extra parameters come in addition, and in the place of members
/// with the same names.
pub proof fn law_function_bodies(request: ChatCompletionRequest, model: Seq<char>,
    functions: Seq<FunctionDefinition>, other: Seq<char>)
    requires
        other != "model"@,
        other != "messages"@,
        other != "tools"@,
        other != "max_tokens"@,
        other != "temperature"@,
        other != "top_p"@,
    ensures
        ({
            let body = functions_body(request, model, functions);
            let extra = request.extra_params@;
            &&& !extra.dom().contains("model"@) ==> body.holds("model"@, JsonView::Text(model))
            &&& !extra.dom().contains("messages"@)
                ==> body.holds("messages"@,
                wire::messages_json(types::messages_view(request.messages@)))
            &&& !extra.dom().contains("tools"@)
                ==> body.holds("tools"@, wire::tools_json(functions))
            &&& !extra.dom().contains("max_tokens"@)
                ==> wire::carries_count(body, "max_tokens"@, request.max_tokens)
            &&& !extra.dom().contains("temperature"@)
                ==> wire::carries_real(body, "temperature"@, request.temperature)
            &&& !extra.dom().contains("top_p"@)
                ==> wire::carries_real(body, "top_p"@, request.top_p)
            &&& body.has(other) <==> extra.dom().contains(other)
            &&& forall|k: Seq<char>| #[trigger] extra.dom().contains(k) ==> body.holds(k, extra[k])
        }),
{
    reveal_strlit("model");
    reveal_strlit("messages");
    reveal_strlit("tools");
    reveal_strlit("max_tokens");
    reveal_strlit("temperature");
    reveal_strlit("top_p");
    assert("model"@.len() == 5);
    assert("messages"@.len() == 8);
    assert("tools"@.len() == 5);
    assert("max_tokens"@.len() == 10);
    assert("temperature"@.len() == 11);
    assert("top_p"@.len() == 5);
    assert("model"@[0] != "tools"@[0]);
    assert("model"@[0] != "top_p"@[0]);
    assert("tools"@[2] != "top_p"@[2]);
}

/// What is sent for a streamed completion: the model, the messages, that it is to be streamed, and
/// how to sample where the request says so.
pub proof fn law_stream_bodies(request: ChatCompletionRequest, model: Seq<char>, other: Seq<char>)
    requires
        other != "model"@,
        other != "messages"@,
        other != "stream"@,
        other != "max_tokens"@,
        other != "temperature"@,
        other != "top_p"@,
    ensures
        ({
            let body = stream_body(request, model);
            &&& body.holds("model"@, JsonView::Text(model))
            &&& body.holds("messages"@, simple_messages(types::messages_view(request.messages@)))
            &&& body.holds("stream"@, JsonView::Bool(true))
            &&& wire::carries_count(body, "max_tokens"@, request.max_tokens)
            &&& wire::carries_real(body, "temperature"@, request.temperature)
            &&& wire::carries_real(body, "top_p"@, request.top_p)
            &&& !body.has(other)
        }),
{
    reveal_strlit("model");
    reveal_strlit("messages");
    reveal_strlit("stream");
    reveal_strlit("max_tokens");
    reveal_strlit("temperature");
    reveal_strlit("top_p");
    assert("model"@.len() == 5);
    assert("messages"@.len() == 8);
    assert("stream"@.len() == 6);
    assert("max_tokens"@.len() == 10);
    assert("temperature"@.len() == 11);
    assert("top_p"@.len() == 5);
    assert("model"@[0] != "top_p"@[0]);
}

/// The answer's identifier, moment, model and fingerprint are read as they stand there. One
/// without an identifier is unknown, one without a model is of the model that was asked for.
pub proof fn law_answers_are_read(
    j: JsonView,
    model: Seq<char>,
    functions: bool,
    id: Option<Seq<char>>,
    named: Option<Seq<char>>,
    fingerprint: Option<Seq<char>>,
    created: u64,
)
    requires
        j.says("id"@, id),
        j.says("model"@, named),
        j.says("system_fingerprint"@, fingerprint),
        j.counts("created"@, created),
    ensures
        ({
            let r = parsed_response(j, model, functions);
            &&& r.id == (if id is Some {
                id->0
            } else {
                "unknown"@
            })
            &&& r.model == (if named is Some {
                named->0
            } else {
                model
            })
            &&& r.created == created
            &&& r.system_fingerprint == fingerprint
            &&& r.object == "chat.completion"@
        }),
{
}

/// There are as many choices as the answer has, in its order. Each keeps the finish reason that
/// stands there, whatever it is.
pub proof fn law_choices_are_read(
    j: JsonView,
    model: Seq<char>,
    functions: bool,
    items: Seq<JsonView>,
    i: int,
    reason: Option<Seq<char>>,
)
    requires
        j.lists("choices"@, items),
        0 <= i < items.len() <= u32::MAX,
        items[i].says("finish_reason"@, reason),
    ensures
        ({
            let choices = parsed_response(j, model, functions).choices;
            &&& choices.len() == items.len()
            &&& choices[i].index == i
            &&& choices[i].finish_reason == reason
            &&& choices[i].logprobs is None
        }),
{
}

/// The message of an answer without functions keeps the text that stands there, under the role
/// that stands there: the system's, the user's, and otherwise the assistant's.
pub proof fn law_messages_are_read(
    j: JsonView,
    model: Seq<char>,
    items: Seq<JsonView>,
    i: int,
    message: JsonView,
    content: Option<Seq<char>>,
    role: Option<Seq<char>>,
)
    requires
        j.lists("choices"@, items),
        0 <= i < items.len(),
        items[i].offers("message"@, message),
        message.says("content"@, content),
        message.says("role"@, role),
    ensures
        ({
            let words = if content is Some {
                content->0
            } else {
                Seq::empty()
            };
            let read = parsed_response(j, model, false).choices[i].message;
            &&& role == Some("system"@) ==> read == (MessageView::System {
                content: words,
                name: None,
            })
            &&& role == Some("user"@) ==> read == (MessageView::User { content: words, name: None })
            &&& role != Some("system"@) && role != Some("user"@) ==> read == (
            MessageView::Assistant { content: Some(words), tool_calls: None, name: None })
        }),
{
    reveal_strlit("system");
    reveal_strlit("user");
    reveal_strlit("assistant");
    assert("system"@.len() == 6 && "user"@.len() == 4 && "assistant"@.len() == 9);
}

/// The message of an answer with functions is the assistant's and keeps the text that stands
/// there. One more call of a function is read after the others, with the identifier, if it is not
/// empty, the name and the arguments that stand there; an item without a function is passed over.
pub proof fn law_calls_are_read(
    j: JsonView,
    k: JsonView,
    model: Seq<char>,
    choices: Seq<JsonView>,
    longer: Seq<JsonView>,
    i: int,
    message: JsonView,
    extended: JsonView,
    content: Option<Seq<char>>,
    items: Seq<JsonView>,
    item: JsonView,
    function: JsonView,
    id: Option<Seq<char>>,
    name: Option<Seq<char>>,
    arguments: Option<Seq<char>>,
)
    requires
        j.lists("choices"@, choices),
        k.lists("choices"@, longer),
        0 <= i < choices.len() <= longer.len(),
        choices[i].offers("message"@, message),
        longer[i].offers("message"@, extended),
        message.says("content"@, content),
        message.lists("tool_calls"@, items),
        extended.lists("tool_calls"@, items.push(item)),
        item.says("id"@, id),
        function.says("name"@, name),
        function.says("arguments"@, arguments),
    ensures
        parsed_response(j, model, true).choices[i].message matches MessageView::Assistant {
            content: c,
            tool_calls: before,
            name: n,
        } && c == content && n is None && (items.len() == 0 ==> before is None) && (parsed_response(
            k,
            model,
            true,
        ).choices[i].message matches MessageView::Assistant { tool_calls: after, .. } && {
            &&& item.holds("function"@, function) ==> after == Some(
                (if before is Some {
                    before->0
                } else {
                    Seq::empty()
                }).push(
                    CallView::Custom {
                        id: if id is Some && id->0.len() > 0 {
                            id
                        } else {
                            None
                        },
                        name: if name is Some {
                            name->0
                        } else {
                            Seq::empty()
                        },
                        arguments: if arguments is Some {
                            arguments->0
                        } else {
                            "{}"@
                        },
                    },
                ),
            )
            &&& !item.has("function"@) ==> after == before
        }),
{
    assert(items.push(item).drop_last() =~= items);
    if items.len() == 0 {
        assert(message.field("tool_calls"@).items_or_none() =~= items);
    }
    if parsed_calls(items).len() == 0 {
        assert(parsed_calls(items) =~= Seq::empty());
    }
}

/// A message is sent without functions as its role and its text; results of functions and tools
/// come from the user.
pub proof fn law_messages_are_sent(messages: Seq<MessageView>, m: MessageView)
    ensures
        simple_messages(messages) matches JsonView::Array(items) && items.len() == messages.len()
            && (simple_messages(messages.push(m)) matches JsonView::Array(more) && {
            &&& more.drop_last() == items
            &&& more.len() == items.len() + 1
            &&& match m {
                MessageView::System { content, .. } => more.last().holds(
                    "role"@,
                    JsonView::Text("system"@),
                ) && more.last().holds("content"@, JsonView::Text(content)),
                MessageView::User { content, .. } => more.last().holds(
                    "role"@,
                    JsonView::Text("user"@),
                ) && more.last().holds("content"@, JsonView::Text(content)),
                MessageView::Assistant { content, .. } => more.last().holds(
                    "role"@,
                    JsonView::Text("assistant"@),
                ) && more.last().holds(
                    "content"@,
                    JsonView::Text(
                        if content is Some {
                            content->0
                        } else {
                            Seq::empty()
                        },
                    ),
                ),
                MessageView::Tool { content, .. } => more.last().holds(
                    "role"@,
                    JsonView::Text("user"@),
                ) && more.last().holds("content"@, JsonView::Text(content)),
                MessageView::Function { arguments, .. } => more.last().holds(
                    "role"@,
                    JsonView::Text("user"@),
                ) && more.last().holds("content"@, JsonView::Text(arguments)),
            }
        }),
{
    reveal_strlit("role");
    reveal_strlit("content");
    assert("role"@.len() == 4 && "content"@.len() == 7);
    let one = |m: MessageView| simple_message(m);
    assert(messages.push(m).map_values(one).drop_last() =~= messages.map_values(one));
}

/// What a request is estimated to cost: the tokens of its messages and the tokens that it allows,
/// or a thousand, each at the price of the model's kind.
pub proof fn law_estimates(p: OpenRouterProvider, request: ChatCompletionRequest, m: Seq<char>)
    requires
        p.model_for(request.model@) == Ok::<Seq<char>, ErrorView>(m),
    ensures
        p.cost(request) matches Ok(e) && {
            &&& e.model == m
            &&& e.provider == "openrouter"@
            &&& e.input_tokens == types::prompt_tokens(types::messages_view(request.messages@))
            &&& e.output_tokens == (match request.max_tokens {
                Some(n) => n,
                None => 1000u32,
            })
            &&& e.total_cost == e.input_cost + e.output_cost
            &&& text::occurs(m, "gpt-4o"@) ==> e.input_cost == e.input_tokens * 5_000_000
                && e.output_cost == e.output_tokens * 15_000_000
            &&& !text::occurs(m, "gpt-4o"@) && text::occurs(m, p.models().id@ + "-3.5-sonnet"@)
                ==> e.input_cost == e.input_tokens * 3_000_000 && e.output_cost
                == e.output_tokens * 15_000_000
            &&& !text::occurs(m, "gpt-4o"@) && !text::occurs(m, p.models().id@ + "-3.5-sonnet"@)
                && text::occurs(m, p.models().id@ + "-3-opus"@) ==> e.input_cost
                == e.input_tokens * 15_000_000 && e.output_cost == e.output_tokens * 75_000_000
            &&& !text::occurs(m, "gpt-4o"@) && !text::occurs(m, p.models().id@ + "-3.5-sonnet"@)
                && !text::occurs(m, p.models().id@ + "-3-opus"@) && text::occurs(m, "gemini"@)
                ==> e.input_cost == e.input_tokens * 1_250_000 && e.output_cost
                == e.output_tokens * 5_000_000
            &&& !text::occurs(m, "gpt-4o"@) && !text::occurs(m, p.models().id@ + "-3.5-sonnet"@)
                && !text::occurs(m, p.models().id@ + "-3-opus"@) && !text::occurs(m, "gemini"@)
                && text::occurs(m, "llama"@) ==> e.input_cost == e.input_tokens * 500_000
                && e.output_cost == e.output_tokens * 1_500_000
            &&& !text::occurs(m, "gpt-4o"@) && !text::occurs(m, p.models().id@ + "-3.5-sonnet"@)
                && !text::occurs(m, p.models().id@ + "-3-opus"@) && !text::occurs(m, "gemini"@)
                && !text::occurs(m, "llama"@) && text::occurs(m, "deepseek"@) ==> e.input_cost
                == e.input_tokens * 140_000 && e.output_cost == e.output_tokens * 280_000
            &&& !text::occurs(m, "gpt-4o"@) && !text::occurs(m, p.models().id@ + "-3.5-sonnet"@)
                && !text::occurs(m, p.models().id@ + "-3-opus"@) && !text::occurs(m, "gemini"@)
                && !text::occurs(m, "llama"@) && !text::occurs(m, "deepseek"@)
                && text::occurs(m, "mistral"@) ==> e.input_cost == e.input_tokens * 250_000
                && e.output_cost == e.output_tokens * 250_000
            &&& !text::occurs(m, "gpt-4o"@) && !text::occurs(m, p.models().id@ + "-3.5-sonnet"@)
                && !text::occurs(m, p.models().id@ + "-3-opus"@) && !text::occurs(m, "gemini"@)
                && !text::occurs(m, "llama"@) && !text::occurs(m, "deepseek"@)
                && !text::occurs(m, "mistral"@) ==> e.input_cost == e.input_tokens * 10_000_000
                && e.output_cost == e.output_tokens * 30_000_000
        },
{
    wire::law_estimates_add_up(request, m, estimate_prices(m, p.models().id@).0,
        estimate_prices(m, p.models().id@).1, "openrouter"@);
}

/// A request is for the model that it names, else for the default model, and fails where there is
/// no default.
pub proof fn law_models_are_resolved(p: OpenRouterProvider, model: Seq<char>)
    ensures
        model.len() > 0 ==> p.model_for(model) == Ok::<Seq<char>, ErrorView>(model),
        model.len() == 0 ==> match p.settings().default_model {
            Some(d) => p.model_for(model) == Ok::<Seq<char>, ErrorView>(d@),
            None => p.model_for(model) == Err::<Seq<char>, ErrorView>(
                (ErrorView::ConfigurationError {
                    message: "No model configured for OpenRouterProvider — set default_model in OpenRouterConfig or pass a model in the request"@,
                    field: Some("default_model"@),
                }),
            ),
        },
{
}

/// A body is posted to the chat API, with the token or else the key, and with the referrer and the
/// route where they are configured.
pub proof fn law_requests_are_posted(p: OpenRouterProvider, body: JsonView)
    ensures
        ({
            let r = p.posted(body);
            let c = p.settings();
            let token = match c.jwt_token {
                Some(t) => t@,
                None => c.api_key@,
            };
            &&& r.method == http::Method::Post
            &&& r.url == "https://openrouter.ai/api/v1/chat/completions"@
            &&& r.body == Some(body)
            &&& r.headers.len() == 2 + (if c.referrer is Some {
                1int
            } else {
                0
            }) + (if c.default_route is Some {
                1int
            } else {
                0
            })
            &&& r.headers[0] == ("Content-Type"@, "application/json"@)
            &&& r.headers[1] == ("Authorization"@, "Bearer "@ + token)
            &&& c.referrer matches Some(x) ==> r.headers[2] == ("HTTP-Referer"@, x@)
            &&& c.default_route matches Some(x) ==> r.headers.last() == ("OpenRouter-Router"@, x@)
        }),
{
}

/// The provider is OpenRouter. It supports nine models without asking, and all models call
/// functions. Nothing is said of limits, prices and abilities.
pub proof fn law_what_is_known(p: OpenRouterProvider, model: Seq<char>)
    ensures
        p.id() == "openrouter"@,
        p.catalogue().contains(model) <==> model == "openai/gpt-4o"@ || model
            == "openai/gpt-4o-mini"@ || model == "anthropic/"@ + p.models().id@ + "-3.5-sonnet"@
            || model == "anthropic/"@ + p.models().id@ + "-3-opus"@ || model
            == "google/gemini-1.5-pro"@ || model == "deepseek/deepseek-chat"@ || model
            == "meta-llama/llama-3.1-70b"@ || model == "mistralai/mistral-7b"@ || model
            == "cohere/command-r"@,
        p.calls_functions(model),
        p.prices(model) is None,
        p.limits() matches Ok(s) && s.remaining is None && s.limit is None && s.tokens_remaining
            is None && s.tokens_limit is None && s.reset_at is None && s.retry_after is None,
        p.abilities(model) matches Some(a) && !a.function_calling && !a.vision && !a.streaming
            && !a.json_mode && !a.caching && a.max_tokens == 0 && a.context_window == 0,
{
    let s = supported(p.models().id@);
    assert(s[0] == "openai/gpt-4o"@ && s[1] == "openai/gpt-4o-mini"@ && s[4]
        == "google/gemini-1.5-pro"@ && s[5] == "deepseek/deepseek-chat"@ && s[6]
        == "meta-llama/llama-3.1-70b"@ && s[7] == "mistralai/mistral-7b"@ && s[8]
        == "cohere/command-r"@);
    assert(s[2] == "anthropic/"@ + p.models().id@ + "-3.5-sonnet"@);
    assert(s[3] == "anthropic/"@ + p.models().id@ + "-3-opus"@);
}

/// The list in an answer is made of all its items. Without an answer, or without a list in it, the
/// error says what went wrong.
pub proof fn law_lists_are_read(
    j: JsonView,
    items: Seq<JsonView>,
    words: Seq<char>,
    code: u16,
    body: Option<Seq<char>>,
)
    ensures
        j.holds("data"@, JsonView::Array(items)) ==> models_answer(
            (OutcomeView::Answered { json: j }),
        ) == Ok::<Seq<ListedModelView>, ErrorView>(listed_models(items)),
        !j.has_list("data"@) ==> models_answer((OutcomeView::Answered { json: j }))
            == Err::<Seq<ListedModelView>, ErrorView>(
            (ErrorView::SerializationError { message: "Missing 'data' array in models response"@,
                context: None }),
        ),
        models_answer(
            (OutcomeView::Failed { failure: FailureView::Unsent { message: words } }),
        ) == Err::<Seq<ListedModelView>, ErrorView>(
            (ErrorView::HttpError {
                message: "Failed to fetch OpenRouter models: "@ + words,
                status_code: None,
                body: None,
            }),
        ),
        models_answer(
            (OutcomeView::Failed { failure: FailureView::Refused { status: words, code, body } }),
        ) == Err::<Seq<ListedModelView>, ErrorView>(
            (ErrorView::HttpError {
                message: "OpenRouter /models returned "@ + words + ": "@ + (if body is Some {
                    body->0
                } else {
                    Seq::empty()
                }),
                status_code: Some(code),
                body,
            }),
        ),
        models_answer((OutcomeView::Unreadable { message: words })) == Err::<Seq<ListedModelView>,
            ErrorView>(
            (ErrorView::SerializationError {
                message: words,
                context: Some("Failed to parse OpenRouter models response"@),
            }),
        ),
{
}

/// Each item of the live list is one model, in the list's order. Its identifier, name, description
/// and limits are those that stand there. It takes images where `image` is among its inputs, calls
/// functions where its parameters say `tools` or `tool_choice`, and writes JSON where they say
/// `response_format` or `structured_outputs`. Its prices are quoted as they stand there.
pub proof fn law_listed_models(
    items: Seq<JsonView>,
    i: int,
    id: Option<Seq<char>>,
    name: Option<Seq<char>>,
    description: Option<Seq<char>>,
    length: u64,
    created: u64,
)
    requires
        0 <= i < items.len(),
        items[i].says("id"@, id),
        items[i].says("name"@, name),
        items[i].says("description"@, description),
        items[i].counts("context_length"@, length),
        items[i].counts("created"@, created),
    ensures
        listed_models(items).len() == items.len(),
        ({
            let m = listed_models(items)[i].model;
            let window = length % 0x1_0000_0000;
            let known = if id is Some {
                id->0
            } else {
                Seq::empty()
            };
            &&& m.id == known
            &&& m.name == (if name is Some {
                name->0
            } else {
                known
            })
            &&& m.provider == "openrouter"@
            &&& m.description == description
            &&& m.context_window == window
            &&& m.capabilities.context_window == window
            &&& m.capabilities.max_tokens == m.max_output_tokens
            &&& m.capabilities.streaming
            &&& !m.capabilities.caching
            &&& m.pricing is None
            &&& m.created == created
            &&& m.available
            &&& m.capabilities.vision <==> m.capabilities.input_modalities.contains("image"@)
            &&& m.capabilities.strengths == strengths(
                outside::lowercased(known),
                m.capabilities.vision,
            )
        }),
{
    json::lemma_low_half(length);
}

/// The output limit of a listed model is the one of its top provider, or its context window where
/// there is none.
pub proof fn law_listed_limits(
    items: Seq<JsonView>,
    i: int,
    length: u64,
    top: JsonView,
    output: u64,
)
    requires
        0 <= i < items.len(),
        items[i].counts("context_length"@, length),
        items[i].offers("top_provider"@, top),
    ensures
        top.holds("max_completion_tokens"@, JsonView::Number(NumberView::Unsigned(output)))
            ==> listed_models(items)[i].model.max_output_tokens == output % 0x1_0000_0000,
        !top.has_count("max_completion_tokens"@) ==> listed_models(
            items,
        )[i].model.max_output_tokens == length % 0x1_0000_0000,
{
    json::lemma_low_half(length);
    json::lemma_low_half(output);
    json::lemma_low_half((length % 0x1_0000_0000) as u64);
}

/// What a listed model takes and gives are the texts that stand there, in order; what its
/// parameters are decides what it can do.
pub proof fn law_listed_abilities(
    items: Seq<JsonView>,
    i: int,
    architecture: JsonView,
    inputs: Seq<JsonView>,
    outputs: Seq<JsonView>,
    params: Seq<JsonView>,
)
    requires
        0 <= i < items.len(),
        items[i].offers("architecture"@, architecture),
        architecture.lists("input_modalities"@, inputs),
        architecture.lists("output_modalities"@, outputs),
        items[i].lists("supported_parameters"@, params),
    ensures
        ({
            let a = listed_models(items)[i].model.capabilities;
            &&& a.input_modalities == wire::texts_among(inputs)
            &&& a.output_modalities == wire::texts_among(outputs)
            &&& a.function_calling <==> params.contains(JsonView::Text("tools"@))
                || params.contains(JsonView::Text("tool_choice"@))
            &&& a.json_mode <==> params.contains(JsonView::Text("response_format"@))
                || params.contains(JsonView::Text("structured_outputs"@))
        }),
{
    lemma_texts_among(params, "tools"@);
    lemma_texts_among(params, "tool_choice"@);
    lemma_texts_among(params, "response_format"@);
    lemma_texts_among(params, "structured_outputs"@);
    let m = items[i];
    if params.len() == 0 {
        assert(m.field("supported_parameters"@).items_or_none() =~= params);
    }
    if inputs.len() == 0 {
        assert(architecture.field("input_modalities"@).items_or_none() =~= inputs);
    }
    if outputs.len() == 0 {
        assert(architecture.field("output_modalities"@).items_or_none() =~= outputs);
    }
}

proof fn lemma_texts_among(items: Seq<JsonView>, s: Seq<char>)
    ensures
        wire::texts_among(items).contains(s) <==> items.contains(JsonView::Text(s)),
    decreases items.len(),
{
    if items.len() > 0 {
        let front = items.drop_last();
        lemma_texts_among(front, s);
        wire::law_texts_among_values(front, items.last());
        assert(front.push(items.last()) =~= items);
        let all = wire::texts_among(items);
        let some = wire::texts_among(front);
        if all.contains(s) {
            let k = all.index_of(s);
            if k < some.len() {
                assert(some[k] == s);
                assert(front.contains(JsonView::Text(s)));
                let q = front.index_of(JsonView::Text(s));
                assert(items[q] == JsonView::Text(s));
            } else {
                assert(items[items.len() - 1] == JsonView::Text(s));
            }
        }
        if items.contains(JsonView::Text(s)) {
            let k = items.index_of(JsonView::Text(s));
            if k < front.len() {
                assert(front[k] == JsonView::Text(s));
                let q = some.index_of(s);
                assert(all[q] == s);
            } else {
                assert(all[all.len() - 1] == s);
            }
        }
    } else {
        assert(!wire::texts_among(items).contains(s));
    }
}

/// The prices of a listed model are quoted as they stand there, as a text or as a number; anything
/// else is no price.
pub proof fn law_quoted_prices(items: Seq<JsonView>, i: int, pricing: JsonView, v: JsonView)
    requires
        0 <= i < items.len(),
        items[i].offers("pricing"@, pricing),
    ensures
        pricing.offers("prompt"@, v) ==> is_quote(listed_models(items)[i].prompt_price, v),
        pricing.offers("completion"@, v) ==> is_quote(listed_models(items)[i].completion_price, v),
{
}

/// The price is quoted as the value says.
pub open spec fn is_quote(q: QuotedPriceView, v: JsonView) -> bool {
    match v {
        JsonView::Text(s) => q == QuotedPriceView::Text(s),
        JsonView::Number(n) => q == QuotedPriceView::Number(n),
        _ => q is Missing,
    }
}

/// What a model is good at follows from the words in its identifier, and for images also from what
/// it takes. Nothing is named twice, and the order is always the same.
pub proof fn law_strengths(lower: Seq<char>, vision: bool)
    ensures
        ({
            let s = strengths(lower, vision);
            &&& s.contains("coding"@) <==> text::occurs(lower, "coder"@) || text::occurs(
                lower,
                "code"@,
            ) || text::occurs(lower, "deepseek"@)
            &&& s.contains("reasoning"@) <==> text::occurs(lower, "reason"@) || text::occurs(
                lower,
                "o1"@,
            ) || text::occurs(lower, "o3"@) || text::occurs(lower, "think"@)
            &&& s.contains("math"@) <==> text::occurs(lower, "math"@)
            &&& s.contains("vision"@) <==> vision || text::occurs(lower, "vision"@)
            &&& s.len() <= 4
            &&& forall|i: int, j: int| 0 <= i < j < s.len() ==> s[i] != s[j]
            &&& forall|i: int|
                0 <= i < s.len() ==> #[trigger] s[i] == "coding"@ || s[i] == "reasoning"@ || s[i]
                    == "math"@ || s[i] == "vision"@
        }),
{
    reveal_strlit("coding");
    reveal_strlit("reasoning");
    reveal_strlit("math");
    reveal_strlit("vision");
    assert("coding"@.len() == 6);
    assert("reasoning"@.len() == 9);
    assert("math"@.len() == 4);
    assert("vision"@.len() == 6);
    assert("coding"@[0] != "vision"@[0]);
    let codes = text::occurs(lower, "coder"@) || text::occurs(lower, "code"@) || text::occurs(
        lower,
        "deepseek"@,
    );
    let reasons = text::occurs(lower, "reason"@) || text::occurs(lower, "o1"@) || text::occurs(
        lower,
        "o3"@,
    ) || text::occurs(lower, "think"@);
    let counts = text::occurs(lower, "math"@);
    let sees = text::occurs(lower, "vision"@) || vision;
    let a = with_if(Seq::empty(), codes, "coding"@);
    let b = with_if(a, reasons, "reasoning"@);
    let c = with_if(b, counts, "math"@);
    let d = with_if(c, sees, "vision"@);
    assert(d == strengths(lower, vision));
    if codes {
        assert(d[0] == "coding"@);
    }
    if reasons {
        assert(d[a.len() as int] == "reasoning"@);
    }
    if counts {
        assert(d[b.len() as int] == "math"@);
    }
    if sees {
        assert(d[c.len() as int] == "vision"@);
    }
}

/// A listed model is seen with its prices as they are quoted.
pub proof fn law_listed_models_as_seen(models: Seq<ListedModel>, i: int)
    requires
        0 <= i < models.len(),
    ensures
        listed_view(models).len() == models.len(),
        listed_view(models)[i].model == models[i].model@,
        match models[i].prompt_price {
            QuotedPrice::Text(s) => listed_view(models)[i].prompt_price
                == QuotedPriceView::Text(s@),
            QuotedPrice::Number(n) => listed_view(models)[i].prompt_price
                == QuotedPriceView::Number(json::number_view(n)),
            QuotedPrice::Missing => listed_view(models)[i].prompt_price is Missing,
        },
        match models[i].completion_price {
            QuotedPrice::Text(s) => listed_view(models)[i].completion_price
                == QuotedPriceView::Text(s@),
            QuotedPrice::Number(n) => listed_view(models)[i].completion_price
                == QuotedPriceView::Number(json::number_view(n)),
            QuotedPrice::Missing => listed_view(models)[i].completion_price is Missing,
        },
{
}

} // verus!
