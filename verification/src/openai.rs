//! The OpenAI provider.

use crate::catalogue;
use crate::catalogue::ModelEntry;
use crate::cost_tracker::{CostEstimate, EstimateView};
use crate::error;
use crate::error::{ErrorView, LLMError};
use crate::http;
use crate::http::{HttpFailure, HttpOutcome, HttpRequest, HttpRequestView, OutcomeView};
use crate::json;
use crate::json::{Json, JsonObject, JsonView};
use crate::provider;
use crate::provider::LLMProvider;
use crate::rate_limiter;
use crate::rate_limiter::RateLimitStatus;
use crate::streaming::{ChunkStream, Dialect};
use crate::text;
use crate::types;
use crate::types::{
    CallView, CapabilitiesView, ChatCompletionRequest, ChatCompletionResponse, ChatMessage, Choice,
    ChoiceView, FullModelInfo, FunctionDefinition, MessageView, ModelCapabilities, ModelPricing,
    ResponseView, ToolCall,
};
use crate::wire;
use vstd::prelude::*;

verus! {

/// OpenAI configuration.
#[derive(Debug, Clone)]
pub struct OpenAIConfig {
    pub api_key: String,
    pub organization_id: Option<String>,
    pub base_url: Option<String>,
    pub default_model: Option<String>,
}

impl Default for OpenAIConfig {
    fn default() -> (r: OpenAIConfig)
        ensures
            r.api_key@ == Seq::<char>::empty(),
            r.organization_id is None,
            text::opt_text(r.base_url) == Some("https://api.openai.com/v1"@),
            r.default_model is None,
    {
        OpenAIConfig {
            api_key: String::new(),
            organization_id: None,
            base_url: Some("https://api.openai.com/v1".to_owned()),
            default_model: None,
        }
    }
}

/// The OpenAI provider.
#[derive(Debug)]
pub struct OpenAIProvider {
    config: OpenAIConfig,
}

/// The tool call in one item of an answer. An item without a function or without a name is none.
pub open spec fn parsed_call(tc: JsonView) -> Option<CallView> {
    match tc.lookup("function"@) {
        Some(func) => match func.field("name"@).text() {
            Some(name) => Some(
                CallView::Custom {
                    id: tc.field("id"@).text(),
                    name,
                    arguments: text::text_or(func.field("arguments"@).text(), "{}"@),
                },
            ),
            None => None,
        },
        None => None,
    }
}

/// The tool calls in some items, in order.
pub open spec fn parsed_calls(items: Seq<JsonView>) -> Seq<CallView>
    decreases items.len(),
{
    if items.len() == 0 {
        Seq::empty()
    } else {
        wire::and_then_one(parsed_calls(items.drop_last()), parsed_call(items.last()))
    }
}

/// The calls where there are some.
pub open spec fn some_calls(calls: Seq<CallView>) -> Option<Seq<CallView>> {
    if calls.len() == 0 {
        None
    } else {
        Some(calls)
    }
}

/// The assistant message in an answer.
pub open spec fn parsed_assistant(msg: JsonView) -> MessageView {
    MessageView::Assistant {
        content: msg.field("content"@).text(),
        tool_calls: some_calls(parsed_calls(msg.field("tool_calls"@).items_or_none())),
        name: None,
    }
}

/// A choice in an answer.
pub open spec fn parsed_choice(index: int, choice: JsonView) -> ChoiceView {
    ChoiceView {
        index: index as u32,
        message: parsed_assistant(choice.field("message"@)),
        finish_reason: choice.field("finish_reason"@).text(),
        logprobs: None,
    }
}

/// The choices in an answer.
pub open spec fn parsed_choices(items: Seq<JsonView>) -> Seq<ChoiceView> {
    Seq::new(items.len(), |i: int| parsed_choice(i, items[i]))
}

/// The response in an answer.
pub open spec fn parsed_response(j: JsonView, request_model: Seq<char>) -> ResponseView {
    ResponseView {
        id: text::text_or(j.field("id"@).text(), "unknown"@),
        object: "chat.completion"@,
        created: j.field("created"@).count_or_zero(),
        model: text::text_or(j.field("model"@).text(), request_model),
        choices: parsed_choices(j.field("choices"@).items_or_none()),
        usage: wire::usage_of(j),
        system_fingerprint: j.field("system_fingerprint"@).text(),
    }
}

/// The body of a request for a completion.
pub open spec fn chat_body(request: ChatCompletionRequest) -> JsonView {
    JsonView::Object(
        wire::with_penalties(
            wire::with_sampling(
                Map::empty().insert("model"@, JsonView::Text(request.model@)).insert(
                    "messages"@,
                    wire::messages_json(types::messages_view(request.messages@)),
                ),
                "max_tokens"@,
                "top_p"@,
                request,
            ),
            request,
        ).union_prefer_right(request.extra_params@),
    )
}

/// The body of a request for a completion with functions.
pub open spec fn functions_body(
    request: ChatCompletionRequest,
    functions: Seq<FunctionDefinition>,
) -> JsonView {
    JsonView::Object(
        wire::with_penalties(
            wire::with_sampling(
                Map::empty().insert("model"@, JsonView::Text(request.model@)).insert(
                    "messages"@,
                    wire::messages_json(types::messages_view(request.messages@)),
                ).insert("tools"@, wire::tools_json(functions)),
                "max_tokens"@,
                "top_p"@,
                request,
            ),
            request,
        ).union_prefer_right(request.extra_params@),
    )
}

/// The body of a request for a streamed completion.
pub open spec fn stream_body(request: ChatCompletionRequest, model: Seq<char>) -> JsonView {
    JsonView::Object(
        wire::with_sampling(
            Map::empty().insert("model"@, JsonView::Text(model)).insert(
                "messages"@,
                wire::messages_json(types::messages_view(request.messages@)),
            ).insert("stream"@, JsonView::Bool(true)),
            "max_tokens"@,
            "top_p"@,
            request,
        ),
    )
}

/// What is said where neither the request nor the configuration names a model.
pub open spec fn no_model_message() -> Seq<char> {
    "No model configured for OpenAIProvider — set default_model in OpenAIConfig or pass a model in the request"@
}

/// The prices of input and output tokens that estimates go by.
pub open spec fn estimate_prices(model: Seq<char>) -> (u64, u64) {
    if text::begins(model, "gpt-4"@) {
        (30_000_000, 60_000_000)
    } else if text::begins(model, "gpt-3.5-turbo"@) {
        (500_000, 1_500_000)
    } else if text::begins(model, "o1"@) {
        (15_000_000, 60_000_000)
    } else {
        (30_000_000, 60_000_000)
    }
}

/// The models that are known to be supported.
pub open spec fn supported() -> Seq<Seq<char>> {
    seq![
        "gpt-4"@,
        "gpt-4-turbo"@,
        "gpt-4o"@,
        "gpt-4o-mini"@,
        "gpt-3.5-turbo"@,
        "o1"@,
        "o1-mini"@,
        "o1-preview"@,
    ]
}

/// The table of models.
pub open spec fn table() -> Seq<ModelEntry> {
    seq![
        ModelEntry {
            id: "gpt-4",
            name: "GPT-4",
            provider: "openai",
            description: "Most capable model, optimized for complex tasks",
            context_window: 8192,
            max_output_tokens: 8192,
            vision: true,
            caching: true,
            prompt_price: 30_000_000,
            completion_price: 60_000_000,
            created: 1687882411,
        },
        ModelEntry {
            id: "gpt-4-turbo",
            name: "GPT-4 Turbo",
            provider: "openai",
            description: "Higher speed at 2x the throughput of GPT-4",
            context_window: 128000,
            max_output_tokens: 4096,
            vision: true,
            caching: true,
            prompt_price: 10_000_000,
            completion_price: 30_000_000,
            created: 1694122800,
        },
        ModelEntry {
            id: "gpt-3.5-turbo",
            name: "GPT-3.5 Turbo",
            provider: "openai",
            description: "Fast and efficient model for most tasks",
            context_window: 4096,
            max_output_tokens: 4096,
            vision: false,
            caching: false,
            prompt_price: 500_000,
            completion_price: 1_500_000,
            created: 1684758360,
        },
        ModelEntry {
            id: "gpt-4o",
            name: "GPT-4 Optimized",
            provider: "openai",
            description: "Optimized version of GPT-4 for faster responses",
            context_window: 128000,
            max_output_tokens: 4096,
            vision: true,
            caching: true,
            prompt_price: 5_000_000,
            completion_price: 15_000_000,
            created: 1714073600,
        },
        ModelEntry {
            id: "gpt-4o-mini",
            name: "GPT-4 Optimized Mini",
            provider: "openai",
            description: "Lightweight version for efficiency",
            context_window: 128000,
            max_output_tokens: 4096,
            vision: true,
            caching: false,
            prompt_price: 150_000,
            completion_price: 600_000,
            created: 1718192000,
        },
    ]
}

fn parse_call(tc: &Json) -> (r: Option<ToolCall>)
    ensures
        (match r {
            Some(c) => Some(c@),
            None => None,
        }) == parsed_call(tc@),
{
    match tc.get("function") {
        Some(func) => match func.at("name").as_text() {
            Some(name) => Some(
                types::custom_call(
                    text::own_opt(tc.at("id").as_text()),
                    name.to_owned(),
                    func.at("arguments").text_or("{}").to_owned(),
                ),
            ),
            None => None,
        },
        None => None,
    }
}

fn parse_calls(items: &Vec<Json>) -> (r: Vec<ToolCall>)
    ensures
        types::calls_view(r@) == parsed_calls(json::items_view(items@)),
{
    let mut out: Vec<ToolCall> = Vec::new();
    let mut i: usize = 0;
    let ghost all = json::items_view(items@);
    assert(all.take(0) =~= Seq::empty());
    assert(types::calls_view(out@) =~= Seq::empty());
    while i < items.len()
        invariant
            i <= items@.len(),
            all == json::items_view(items@),
            types::calls_view(out@) == parsed_calls(all.take(i as int)),
        decreases items@.len() - i,
    {
        assert(all.take(i + 1).drop_last() =~= all.take(i as int));
        assert(all.take(i + 1).last() == items@[i as int]@);
        match parse_call(&items[i]) {
            Some(c) => {
                let ghost before = out@;
                out.push(c);
                assert(types::calls_view(out@) =~= types::calls_view(before).push(c@));
            },
            None => {},
        }
        i = i + 1;
    }
    assert(all.take(i as int) =~= all);
    out
}

impl OpenAIProvider {
    /// The configuration.
    pub closed spec fn settings(&self) -> OpenAIConfig {
        self.config
    }

    /// The base URL of the API.
    pub open spec fn base_url(&self) -> Seq<char> {
        text::text_or(text::opt_text(self.settings().base_url), "https://api.openai.com/v1"@)
    }

    /// The request that posts a body to the chat API.
    pub open spec fn posted(&self, body: JsonView) -> HttpRequestView {
        wire::posting(
            self.base_url() + "/chat/completions"@,
            seq![
                ("Authorization"@, "Bearer "@ + self.settings().api_key@),
                http::json_header(),
            ],
            body,
        )
    }

    /// A provider with this key and the default configuration.
    pub fn new(api_key: &str) -> (r: Result<OpenAIProvider, LLMError>)
        ensures
            r matches Ok(p) && p.settings().api_key@ == api_key@ && p.settings().organization_id
                is None && text::opt_text(p.settings().base_url) == Some(
                "https://api.openai.com/v1"@,
            ) && p.settings().default_model is None,
    {
        let mut config = OpenAIConfig::default();
        config.api_key = api_key.to_owned();
        Ok(OpenAIProvider { config })
    }

    /// A provider with this configuration, which has to hold a key.
    pub fn with_config(config: OpenAIConfig) -> (r: Result<OpenAIProvider, LLMError>)
        ensures
            match r {
                Ok(p) => config.api_key@.len() != 0 && p.settings() == config,
                Err(e) => config.api_key@.len() == 0 && e@ == (ErrorView::ConfigurationError {
                    message: "OpenAI API key is required"@,
                    field: Some("api_key"@),
                }),
            },
    {
        if config.api_key.as_str().unicode_len() == 0 {
            return Err(error::configuration_error("OpenAI API key is required", "api_key"));
        }
        Ok(OpenAIProvider { config })
    }

    fn get_base_url(&self) -> (r: &str)
        ensures
            r@ == self.base_url(),
    {
        match &self.config.base_url {
            Some(u) => u.as_str(),
            None => "https://api.openai.com/v1",
        }
    }

    /// The assistant message in an answer.
    pub fn parse_assistant_message(msg: &Json) -> (r: ChatMessage)
        ensures
            r@ == parsed_assistant(msg@),
    {
        let content = text::own_opt(msg.at("content").as_text());
        let tool_calls = match msg.at("tool_calls").as_items() {
            Some(items) => {
                let calls = parse_calls(items);
                assert(types::calls_view(calls@).len() == calls@.len());
                if calls.len() == 0 {
                    None
                } else {
                    Some(calls)
                }
            },
            None => {
                assert(msg@.field("tool_calls"@).items_or_none() =~= Seq::empty());
                None
            },
        };
        ChatMessage::Assistant { content, tool_calls, name: None }
    }

    fn chat_post(&self, body: Json) -> (r: HttpRequest)
        ensures
            r@ == self.posted(body@),
    {
        let mut headers: Vec<(String, String)> = Vec::new();
        let authorization = text::cat("Bearer ", self.config.api_key.as_str());
        headers.push(http::header("Authorization", authorization.as_str()));
        headers.push(http::header("Content-Type", "application/json"));
        assert(http::headers_view(headers@) =~= seq![
            ("Authorization"@, "Bearer "@ + self.settings().api_key@),
            http::json_header(),
        ]);
        wire::post(text::cat(self.get_base_url(), "/chat/completions"), headers, body)
    }

    /// The response in an answer.
    pub fn build_response(j: &Json, request_model: &str) -> (r: ChatCompletionResponse)
        requires
            wire::usage_complete(j@),
        ensures
            r@ == parsed_response(j@, request_model@),
    {
        let mut choices: Vec<Choice> = Vec::new();
        let ghost all = j@.field("choices"@).items_or_none();
        match j.at("choices").as_items() {
            Some(items) => {
                let mut i: usize = 0;
                while i < items.len()
                    invariant
                        i <= items@.len(),
                        all == json::items_view(items@),
                        choices@.len() == i,
                        forall|k: int|
                            0 <= k < i ==> (#[trigger] choices@[k])@ == parsed_choice(k, all[k]),
                    decreases items@.len() - i,
                {
                    let choice = &items[i];
                    assert(all[i as int] == choice@);
                    choices.push(
                        Choice {
                            index: i as u32,
                            message: Self::parse_assistant_message(choice.at("message")),
                            finish_reason: text::own_opt(choice.at("finish_reason").as_text()),
                            logprobs: None,
                        },
                    );
                    i = i + 1;
                }
            },
            None => {
                assert(all =~= Seq::empty());
            },
        }
        assert(types::choices_view(choices@) =~= parsed_choices(all));
        ChatCompletionResponse {
            id: j.at("id").text_or("unknown").to_owned(),
            object: "chat.completion".to_owned(),
            created: j.at("created").count_or_zero(),
            model: j.at("model").text_or(request_model).to_owned(),
            choices,
            usage: wire::read_usage(j),
            system_fingerprint: text::own_opt(j.at("system_fingerprint").as_text()),
        }
    }

    /// The request for a completion.
    pub fn chat_completion_request(&self, request: &ChatCompletionRequest) -> (r: HttpRequest)
        ensures
            r@ == self.posted(chat_body(*request)),
    {
        let mut body = JsonObject::new();
        body.set("model", Json::Text(request.model.clone()));
        body.set("messages", wire::serialize_messages(&request.messages));
        wire::set_sampling(&mut body, "max_tokens", "top_p", request);
        wire::set_penalties(&mut body, request);
        body.set_all(&request.extra_params);
        self.chat_post(Json::Object(body))
    }

    /// The request for a completion with functions.
    pub fn chat_completion_with_functions_request(
        &self,
        request: &ChatCompletionRequest,
        functions: &Vec<FunctionDefinition>,
    ) -> (r: HttpRequest)
        ensures
            r@ == self.posted(functions_body(*request, functions@)),
    {
        let mut body = JsonObject::new();
        body.set("model", Json::Text(request.model.clone()));
        body.set("messages", wire::serialize_messages(&request.messages));
        body.set("tools", wire::tools(functions));
        wire::set_sampling(&mut body, "max_tokens", "top_p", request);
        wire::set_penalties(&mut body, request);
        body.set_all(&request.extra_params);
        self.chat_post(Json::Object(body))
    }

    /// The response that comes of a request for a completion, with or without functions.
    pub fn chat_completion_response(
        &self,
        request: &ChatCompletionRequest,
        outcome: HttpOutcome,
    ) -> (r: Result<ChatCompletionResponse, LLMError>)
        requires
            outcome@ matches OutcomeView::Answered { json } ==> wire::usage_complete(json),
        ensures
            http::seen(r) == (match http::answer(
                outcome@,
                "OpenAI API error: "@,
                "Failed to parse OpenAI response"@,
            ) {
                Ok(j) => Ok(parsed_response(j, request.model@)),
                Err(e) => Err(e),
            }),
    {
        match http::read_answer(outcome, "OpenAI API error: ", "Failed to parse OpenAI response") {
            Ok(j) => Ok(Self::build_response(&j, request.model.as_str())),
            Err(e) => Err(e),
        }
    }

    /// The request for a streamed completion, and the stream that its answer feeds.
    pub fn chat_completion_stream_request(&self, request: &ChatCompletionRequest) -> (r: Result<
        (HttpRequest, ChunkStream),
        LLMError,
    >)
        ensures
            match wire::resolved(
                request.model@,
                text::opt_text(self.settings().default_model),
                no_model_message(),
            ) {
                Ok(model) => r matches Ok(p) && p.0@ == self.posted(stream_body(*request, model))
                    && p.1.dialect() == Dialect::OpenAi && p.1.model() == model && p.1.buffer()
                    == Seq::<char>::empty() && p.1.count() == 0,
                Err(e) => r matches Err(x) && x@ == e,
            },
    {
        let model = match wire::resolve_model(
            &request.model,
            &self.config.default_model,
            "No model configured for OpenAIProvider — set default_model in OpenAIConfig or pass a model in the request",
        ) {
            Ok(m) => m,
            Err(e) => return Err(e),
        };
        let mut body = JsonObject::new();
        body.set("model", Json::Text(model.clone()));
        body.set("messages", wire::serialize_messages(&request.messages));
        body.set("stream", Json::Bool(true));
        wire::set_sampling(&mut body, "max_tokens", "top_p", request);
        Ok((self.chat_post(Json::Object(body)), ChunkStream::new(Dialect::OpenAi, model.as_str())))
    }

    /// The error of a streamed completion that did not start.
    pub fn chat_completion_stream_error(&self, failure: HttpFailure) -> (r: LLMError)
        ensures
            r@ == http::failure_error(failure@, "OpenAI API error: "@),
    {
        http::error_of_failure(failure, "OpenAI API error: ")
    }

    /// The models with full information.
    pub fn list_models(&self) -> (r: Result<Vec<FullModelInfo>, LLMError>)
        ensures
            r matches Ok(models) && types::models_view(models@) == catalogue::entry_models(table()),
    {
        let entries: Vec<ModelEntry> = vec![
            ModelEntry {
                id: "gpt-4",
                name: "GPT-4",
                provider: "openai",
                description: "Most capable model, optimized for complex tasks",
                context_window: 8192,
                max_output_tokens: 8192,
                vision: true,
                caching: true,
                prompt_price: 30_000_000,
                completion_price: 60_000_000,
                created: 1687882411,
            },
            ModelEntry {
                id: "gpt-4-turbo",
                name: "GPT-4 Turbo",
                provider: "openai",
                description: "Higher speed at 2x the throughput of GPT-4",
                context_window: 128000,
                max_output_tokens: 4096,
                vision: true,
                caching: true,
                prompt_price: 10_000_000,
                completion_price: 30_000_000,
                created: 1694122800,
            },
            ModelEntry {
                id: "gpt-3.5-turbo",
                name: "GPT-3.5 Turbo",
                provider: "openai",
                description: "Fast and efficient model for most tasks",
                context_window: 4096,
                max_output_tokens: 4096,
                vision: false,
                caching: false,
                prompt_price: 500_000,
                completion_price: 1_500_000,
                created: 1684758360,
            },
            ModelEntry {
                id: "gpt-4o",
                name: "GPT-4 Optimized",
                provider: "openai",
                description: "Optimized version of GPT-4 for faster responses",
                context_window: 128000,
                max_output_tokens: 4096,
                vision: true,
                caching: true,
                prompt_price: 5_000_000,
                completion_price: 15_000_000,
                created: 1714073600,
            },
            ModelEntry {
                id: "gpt-4o-mini",
                name: "GPT-4 Optimized Mini",
                provider: "openai",
                description: "Lightweight version for efficiency",
                context_window: 128000,
                max_output_tokens: 4096,
                vision: true,
                caching: false,
                prompt_price: 150_000,
                completion_price: 600_000,
                created: 1718192000,
            },
        ];
        assert(entries@ =~= table());
        Ok(catalogue::models(&entries))
    }

    /// The model with this identifier.
    pub fn get_full_model_info(&self, model_id: &str) -> (r: Result<
        Option<FullModelInfo>,
        LLMError,
    >)
        ensures
            r matches Ok(found) && provider::is_first_with_id(
                catalogue::entry_models(table()),
                model_id@,
                provider::opt_model(found),
            ),
    {
        match self.list_models() {
            Ok(models) => Ok(provider::get_full_model_info(models, model_id)),
            Err(e) => Err(e),
        }
    }
}

impl LLMProvider for OpenAIProvider {
    open spec fn id(&self) -> Seq<char> {
        "openai"@
    }

    open spec fn catalogue(&self) -> Seq<Seq<char>> {
        supported()
    }

    open spec fn calls_functions(&self, model: Seq<char>) -> bool {
        supported().contains(model)
    }

    open spec fn prices(&self, model: Seq<char>) -> Option<ModelPricing> {
        None
    }

    open spec fn abilities(&self, model: Seq<char>) -> Option<CapabilitiesView> {
        Some(types::no_capabilities())
    }

    open spec fn limits(&self) -> Result<RateLimitStatus, ErrorView> {
        Ok(rate_limiter::unknown_status())
    }

    open spec fn cost(&self, request: ChatCompletionRequest) -> Result<EstimateView, ErrorView> {
        Ok(
            wire::estimated(
                request,
                request.model@,
                estimate_prices(request.model@).0,
                estimate_prices(request.model@).1,
                "openai"@,
            ),
        )
    }

    fn name(&self) -> (r: &str) {
        "openai"
    }

    fn supported_models(&self) -> (r: Vec<String>) {
        let list: Vec<&'static str> = vec![
            "gpt-4",
            "gpt-4-turbo",
            "gpt-4o",
            "gpt-4o-mini",
            "gpt-3.5-turbo",
            "o1",
            "o1-mini",
            "o1-preview",
        ];
        assert(list@.map_values(|s: &'static str| s@) =~= supported());
        catalogue::owned(&list)
    }

    fn get_model_pricing(&self, model: &str) -> (r: Option<ModelPricing>) {
        None
    }

    fn get_model_capabilities(&self, model: &str) -> (r: Option<ModelCapabilities>) {
        Some(ModelCapabilities::default())
    }

    fn supports_function_calling(&self, model: &str) -> (r: bool) {
        self.supports_model(model)
    }

    fn rate_limit_status(&self) -> (r: Result<RateLimitStatus, LLMError>) {
        Ok(RateLimitStatus::unknown())
    }

    fn estimate_cost(&self, request: &ChatCompletionRequest) -> (r: Result<CostEstimate, LLMError>) {
        let model = request.model.as_str();
        let prices: (u64, u64) = if text::starts_with(model, "gpt-4") {
            (30_000_000, 60_000_000)
        } else if text::starts_with(model, "gpt-3.5-turbo") {
            (500_000, 1_500_000)
        } else if text::starts_with(model, "o1") {
            (15_000_000, 60_000_000)
        } else {
            (30_000_000, 60_000_000)
        };
        Ok(wire::estimate(request, model, prices.0, prices.1, "openai"))
    }
}

/// Every model of the table is known to be supported.
pub proof fn law_listed_models_are_supported()
    ensures
        forall|i: int|
            0 <= i < table().len() ==> supported().contains((#[trigger] table()[i]).id@),
{
    let s = supported();
    assert(s[0] == "gpt-4"@ && s[1] == "gpt-4-turbo"@ && s[2] == "gpt-4o"@ && s[3]
        == "gpt-4o-mini"@ && s[4] == "gpt-3.5-turbo"@);
}

/// A call of a custom function that has an identifier.
pub open spec fn identified(call: CallView) -> bool {
    call matches CallView::Custom { id, .. } && id is Some
}

proof fn lemma_call_round_trip(call: CallView)
    requires
        identified(call),
    ensures
        wire::call_json(call) is Some,
        parsed_call(wire::call_json(call)->Some_0) == Some(call),
{
    reveal_strlit("id");
    reveal_strlit("type");
    reveal_strlit("function");
    reveal_strlit("name");
    reveal_strlit("arguments");
    assert("type"@.len() == 4 && "name"@.len() == 4 && "id"@.len() == 2 && "function"@.len() == 8
        && "arguments"@.len() == 9);
}

proof fn lemma_calls_round_trip(calls: Seq<CallView>)
    requires
        forall|i: int| 0 <= i < calls.len() ==> identified(#[trigger] calls[i]),
    ensures
        wire::calls_json(calls).len() == calls.len(),
        parsed_calls(wire::calls_json(calls)) == calls,
    decreases calls.len(),
{
    if calls.len() > 0 {
        let front = calls.drop_last();
        assert forall|i: int| 0 <= i < front.len() implies identified(#[trigger] front[i]) by {
            assert(front[i] == calls[i]);
        }
        lemma_calls_round_trip(front);
        assert(calls.last() == calls[calls.len() - 1]);
        lemma_call_round_trip(calls.last());
        assert(wire::calls_json(calls).drop_last() =~= wire::calls_json(front));
        assert(parsed_calls(wire::calls_json(calls)) =~= calls);
    } else {
        assert(parsed_calls(wire::calls_json(calls)) =~= calls);
    }
}

/// An assistant message without a name comes back as it was when it is written in OpenAI's form
/// and read again. Its tool calls, where it has any, have to be calls of custom functions that
/// have identifiers.
pub proof fn law_assistant_message_round_trip(content: Option<Seq<char>>, tool_calls: Option<
    Seq<CallView>,
>)
    requires
        tool_calls matches Some(calls) ==> calls.len() > 0 && forall|i: int|
            0 <= i < calls.len() ==> identified(#[trigger] calls[i]),
    ensures
        parsed_assistant(
            wire::message_json(MessageView::Assistant { content, tool_calls, name: None }),
        ) == (MessageView::Assistant { content, tool_calls, name: None }),
{
    reveal_strlit("role");
    reveal_strlit("content");
    reveal_strlit("tool_calls");
    assert("role"@.len() == 4 && "content"@.len() == 7 && "tool_calls"@.len() == 10);
    match tool_calls {
        Some(calls) => {
            lemma_calls_round_trip(calls);
        },
        None => {},
    }
}

/// What is sent for a completion: the model, the messages and each parameter that the request sets.
/// Extra parameters come in addition, and in the place of members with the same names.
pub proof fn law_chat_bodies(request: ChatCompletionRequest, other: Seq<char>)
    requires
        other != "model"@,
        other != "messages"@,
        other != "max_tokens"@,
        other != "temperature"@,
        other != "top_p"@,
        other != "n"@,
        other != "stop"@,
        other != "presence_penalty"@,
        other != "frequency_penalty"@,
    ensures
        ({
            let body = chat_body(request);
            let extra = request.extra_params@;
            &&& !extra.dom().contains("model"@)
                ==> body.holds("model"@, JsonView::Text(request.model@))
            &&& !extra.dom().contains("messages"@)
                ==> body.holds("messages"@,
                wire::messages_json(types::messages_view(request.messages@)))
            &&& !extra.dom().contains("max_tokens"@)
                ==> wire::carries_count(body, "max_tokens"@, request.max_tokens)
            &&& !extra.dom().contains("temperature"@)
                ==> wire::carries_real(body, "temperature"@, request.temperature)
            &&& !extra.dom().contains("top_p"@)
                ==> wire::carries_real(body, "top_p"@, request.top_p)
            &&& !extra.dom().contains("n"@) ==> wire::carries_count(body, "n"@, request.n)
            &&& !extra.dom().contains("stop"@) ==> wire::carries_texts(body, "stop"@, request.stop@)
            &&& !extra.dom().contains("presence_penalty"@)
                ==> wire::carries_real(body, "presence_penalty"@, request.presence_penalty)
            &&& !extra.dom().contains("frequency_penalty"@)
                ==> wire::carries_real(body, "frequency_penalty"@, request.frequency_penalty)
            &&& body.has(other) <==> extra.dom().contains(other)
            &&& forall|k: Seq<char>| #[trigger] extra.dom().contains(k) ==> body.holds(k, extra[k])
        }),
{
    reveal_strlit("model");
    reveal_strlit("messages");
    reveal_strlit("max_tokens");
    reveal_strlit("temperature");
    reveal_strlit("top_p");
    reveal_strlit("n");
    reveal_strlit("stop");
    reveal_strlit("presence_penalty");
    reveal_strlit("frequency_penalty");
    assert("model"@.len() == 5);
    assert("messages"@.len() == 8);
    assert("max_tokens"@.len() == 10);
    assert("temperature"@.len() == 11);
    assert("top_p"@.len() == 5);
    assert("n"@.len() == 1);
    assert("stop"@.len() == 4);
    assert("presence_penalty"@.len() == 16);
    assert("frequency_penalty"@.len() == 17);
    assert("model"@[0] != "top_p"@[0]);
    wire::law_stops(request.stop@);
}

/// What is sent for a completion with functions is what is sent without them, and the tools.
pub proof fn law_function_bodies(request: ChatCompletionRequest,
    functions: Seq<FunctionDefinition>, other: Seq<char>)
    requires
        other != "model"@,
        other != "messages"@,
        other != "tools"@,
        other != "max_tokens"@,
        other != "temperature"@,
        other != "top_p"@,
        other != "n"@,
        other != "stop"@,
        other != "presence_penalty"@,
        other != "frequency_penalty"@,
    ensures
        ({
            let body = functions_body(request, functions);
            let extra = request.extra_params@;
            &&& !extra.dom().contains("model"@)
                ==> body.holds("model"@, JsonView::Text(request.model@))
            &&& !extra.dom().contains("messages"@)
                ==> body.holds("messages"@,
                wire::messages_json(types::messages_view(request.messages@)))
            &&& !extra.dom().contains("tools"@)
                ==> body.holds("tools"@, wire::tools_json(functions))
            &&& !extra.dom().contains("max_tokens"@)
                ==> wire::carries_count(body, "max_tokens"@, request.max_tokens)
            &&& !extra.dom().contains("temperature"@)
                ==> wire::carries_real(body, "temperature"@, request.temperature)
            &&& !extra.dom().contains("top_p"@)
                ==> wire::carries_real(body, "top_p"@, request.top_p)
            &&& !extra.dom().contains("n"@) ==> wire::carries_count(body, "n"@, request.n)
            &&& !extra.dom().contains("stop"@) ==> wire::carries_texts(body, "stop"@, request.stop@)
            &&& !extra.dom().contains("presence_penalty"@)
                ==> wire::carries_real(body, "presence_penalty"@, request.presence_penalty)
            &&& !extra.dom().contains("frequency_penalty"@)
                ==> wire::carries_real(body, "frequency_penalty"@, request.frequency_penalty)
            &&& body.has(other) <==> extra.dom().contains(other)
            &&& forall|k: Seq<char>| #[trigger] extra.dom().contains(k) ==> body.holds(k, extra[k])
        }),
{
    reveal_strlit("model");
    reveal_strlit("messages");
    reveal_strlit("tools");
    reveal_strlit("max_tokens");
    reveal_strlit("temperature");
    reveal_strlit("top_p");
    reveal_strlit("n");
    reveal_strlit("stop");
    reveal_strlit("presence_penalty");
    reveal_strlit("frequency_penalty");
    assert("model"@.len() == 5);
    assert("messages"@.len() == 8);
    assert("tools"@.len() == 5);
    assert("max_tokens"@.len() == 10);
    assert("temperature"@.len() == 11);
    assert("top_p"@.len() == 5);
    assert("n"@.len() == 1);
    assert("stop"@.len() == 4);
    assert("presence_penalty"@.len() == 16);
    assert("frequency_penalty"@.len() == 17);
    assert("model"@[0] != "tools"@[0]);
    assert("model"@[0] != "top_p"@[0]);
    assert("tools"@[2] != "top_p"@[2]);
    wire::law_stops(request.stop@);
}

/// What is sent for a streamed completion: the model, the messages, that it is to be streamed, and
/// how to sample where the request says so.
pub proof fn law_stream_bodies(request: ChatCompletionRequest, model: Seq<char>, other: Seq<char>)
    requires
        other != "model"@,
        other != "messages"@,
        other != "stream"@,
        other != "max_tokens"@,
        other != "temperature"@,
        other != "top_p"@,
    ensures
        ({
            let body = stream_body(request, model);
            &&& body.holds("model"@, JsonView::Text(model))
            &&& body.holds("messages"@,
                wire::messages_json(types::messages_view(request.messages@)))
            &&& body.holds("stream"@, JsonView::Bool(true))
            &&& wire::carries_count(body, "max_tokens"@, request.max_tokens)
            &&& wire::carries_real(body, "temperature"@, request.temperature)
            &&& wire::carries_real(body, "top_p"@, request.top_p)
            &&& !body.has(other)
        }),
{
    reveal_strlit("model");
    reveal_strlit("messages");
    reveal_strlit("stream");
    reveal_strlit("max_tokens");
    reveal_strlit("temperature");
    reveal_strlit("top_p");
    assert("model"@.len() == 5);
    assert("messages"@.len() == 8);
    assert("stream"@.len() == 6);
    assert("max_tokens"@.len() == 10);
    assert("temperature"@.len() == 11);
    assert("top_p"@.len() == 5);
    assert("model"@[0] != "top_p"@[0]);
}

/// The answer's identifier, moment, model and fingerprint are read as they stand there. One
/// without an identifier is unknown, one without a model is of the model that was asked for.
pub proof fn law_answers_are_read(
    j: JsonView,
    model: Seq<char>,
    id: Option<Seq<char>>,
    named: Option<Seq<char>>,
    fingerprint: Option<Seq<char>>,
    created: u64,
)
    requires
        j.says("id"@, id),
        j.says("model"@, named),
        j.says("system_fingerprint"@, fingerprint),
        j.counts("created"@, created),
    ensures
        ({
            let r = parsed_response(j, model);
            &&& r.id == (if id is Some {
                id->0
            } else {
                "unknown"@
            })
            &&& r.model == (if named is Some {
                named->0
            } else {
                model
            })
            &&& r.created == created
            &&& r.system_fingerprint == fingerprint
            &&& r.object == "chat.completion"@
        }),
{
}

/// There are as many choices as the answer has, in its order. Each keeps the finish reason that
/// stands there, whatever it is, and the message.
pub proof fn law_choices_are_read(
    j: JsonView,
    model: Seq<char>,
    items: Seq<JsonView>,
    i: int,
    reason: Option<Seq<char>>,
    message: JsonView,
)
    requires
        j.lists("choices"@, items),
        0 <= i < items.len() <= u32::MAX,
        items[i].says("finish_reason"@, reason),
        items[i].offers("message"@, message),
    ensures
        ({
            let choices = parsed_response(j, model).choices;
            &&& choices.len() == items.len()
            &&& choices[i].index == i
            &&& choices[i].finish_reason == reason
            &&& choices[i].logprobs is None
            &&& choices[i].message == parsed_assistant(message)
        }),
{
}

/// An answer without choices has none.
pub proof fn law_no_choices(j: JsonView, model: Seq<char>)
    requires
        j.lists("choices"@, Seq::empty()),
    ensures
        parsed_response(j, model).choices == Seq::<ChoiceView>::empty(),
{
    assert(parsed_response(j, model).choices =~= Seq::empty());
}

/// The assistant's text is read as it stands in the message. Without calls nothing is called.
pub proof fn law_messages_are_read(msg: JsonView, content: Option<Seq<char>>)
    requires
        msg.says("content"@, content),
    ensures
        parsed_assistant(msg) matches MessageView::Assistant { content: c, tool_calls, name } && c
            == content && name is None && (msg.lists("tool_calls"@, Seq::empty())
            ==> tool_calls is None),
{
}

/// One more call of a function with a name is read after the others, with the identifier, the name
/// and the arguments that stand there; an item that names no function is passed over.
pub proof fn law_calls_are_read(
    msg: JsonView,
    longer: JsonView,
    items: Seq<JsonView>,
    item: JsonView,
    function: JsonView,
    id: Option<Seq<char>>,
    name: Option<Seq<char>>,
    arguments: Option<Seq<char>>,
)
    requires
        msg.lists("tool_calls"@, items),
        longer.lists("tool_calls"@, items.push(item)),
        item.says("id"@, id),
        function.says("name"@, name),
        function.says("arguments"@, arguments),
    ensures
        parsed_assistant(msg) matches MessageView::Assistant { tool_calls: before, .. } && (
        parsed_assistant(longer) matches MessageView::Assistant { tool_calls: after, .. } && {
            &&& item.holds("function"@, function) && name is Some ==> after == Some(
                (if before is Some {
                    before->0
                } else {
                    Seq::empty()
                }).push(
                    CallView::Custom {
                        id,
                        name: name->0,
                        arguments: if arguments is Some {
                            arguments->0
                        } else {
                            "{}"@
                        },
                    },
                ),
            )
            &&& item.holds("function"@, function) && name is None ==> after == before
            &&& !item.has("function"@) ==> after == before
        }),
{
    assert(items.push(item).drop_last() =~= items);
    if items.len() == 0 {
        assert(msg.field("tool_calls"@).items_or_none() =~= items);
    }
    if parsed_calls(items).len() == 0 {
        assert(parsed_calls(items) =~= Seq::empty());
    }
}

/// The models that are listed, with their limits, abilities and prices.
pub proof fn law_listed_models()
    ensures
        ({
            let all = catalogue::entry_models(table());
            &&& all.len() == 5
            &&& all[0].id == "gpt-4"@ && all[0].name == "GPT-4"@
            &&& all[0].provider == "openai"@
            &&& all[0].description == Some("Most capable model, optimized for complex tasks"@)
            &&& catalogue::is_line(all[0], 8192, 8192, true, true, 30_000_000, 60_000_000,
                1687882411,)
            &&& all[1].id == "gpt-4-turbo"@ && all[1].name == "GPT-4 Turbo"@
            &&& all[1].provider == "openai"@
            &&& all[1].description == Some("Higher speed at 2x the throughput of GPT-4"@)
            &&& catalogue::is_line(all[1], 128000, 4096, true, true, 10_000_000, 30_000_000,
                1694122800,)
            &&& all[2].id == "gpt-3.5-turbo"@ && all[2].name == "GPT-3.5 Turbo"@
            &&& all[2].provider == "openai"@
            &&& all[2].description == Some("Fast and efficient model for most tasks"@)
            &&& catalogue::is_line(all[2], 4096, 4096, false, false, 500_000, 1_500_000,
                1684758360,)
            &&& all[3].id == "gpt-4o"@ && all[3].name == "GPT-4 Optimized"@
            &&& all[3].provider == "openai"@
            &&& all[3].description == Some("Optimized version of GPT-4 for faster responses"@)
            &&& catalogue::is_line(all[3], 128000, 4096, true, true, 5_000_000, 15_000_000,
                1714073600,)
            &&& all[4].id == "gpt-4o-mini"@ && all[4].name == "GPT-4 Optimized Mini"@
            &&& all[4].provider == "openai"@
            &&& all[4].description == Some("Lightweight version for efficiency"@)
            &&& catalogue::is_line(all[4], 128000, 4096, true, false, 150_000, 600_000, 1718192000,)
        }),
{
    catalogue::law_models_of_lines(table(), 0);
    catalogue::law_models_of_lines(table(), 1);
    catalogue::law_models_of_lines(table(), 2);
    catalogue::law_models_of_lines(table(), 3);
    catalogue::law_models_of_lines(table(), 4);
}

/// What a request is estimated to cost: the tokens of its messages and the tokens that it allows,
/// or a thousand, each at the price of the model's kind.
pub proof fn law_estimates(p: OpenAIProvider, request: ChatCompletionRequest, m: Seq<char>)
    requires
        m == request.model@,
    ensures
        p.cost(request) matches Ok(e) && {
            &&& e.model == m
            &&& e.provider == "openai"@
            &&& e.input_tokens == types::prompt_tokens(types::messages_view(request.messages@))
            &&& e.output_tokens == (match request.max_tokens {
                Some(n) => n,
                None => 1000u32,
            })
            &&& e.total_cost == e.input_cost + e.output_cost
            &&& "gpt-4"@.is_prefix_of(m) ==> e.input_cost == e.input_tokens * 30_000_000
                && e.output_cost == e.output_tokens * 60_000_000
            &&& !"gpt-4"@.is_prefix_of(m) && "gpt-3.5-turbo"@.is_prefix_of(m) ==> e.input_cost
                == e.input_tokens * 500_000 && e.output_cost == e.output_tokens * 1_500_000
            &&& !"gpt-4"@.is_prefix_of(m) && !"gpt-3.5-turbo"@.is_prefix_of(m)
                && "o1"@.is_prefix_of(m) ==> e.input_cost == e.input_tokens * 15_000_000
                && e.output_cost == e.output_tokens * 60_000_000
            &&& !"gpt-4"@.is_prefix_of(m) && !"gpt-3.5-turbo"@.is_prefix_of(m)
                && !"o1"@.is_prefix_of(m) ==> e.input_cost == e.input_tokens * 30_000_000
                && e.output_cost == e.output_tokens * 60_000_000
        },
{
    text::law_occurrences(m, "gpt-4"@);
    text::law_occurrences(m, "gpt-3.5-turbo"@);
    text::law_occurrences(m, "o1"@);
    wire::law_estimates_add_up(request, m, estimate_prices(m).0, estimate_prices(m).1, "openai"@);
}

/// A body is posted to the chat API below the base URL, with the key.
pub proof fn law_requests_are_posted(p: OpenAIProvider, body: JsonView)
    ensures
        ({
            let r = p.posted(body);
            &&& r.method == http::Method::Post
            &&& r.url == (match p.settings().base_url {
                Some(u) => u@,
                None => "https://api.openai.com/v1"@,
            }) + "/chat/completions"@
            &&& r.headers == seq![
                ("Authorization"@, "Bearer "@ + p.settings().api_key@),
                ("Content-Type"@, "application/json"@),
            ]
            &&& r.body == Some(body)
        }),
{
}

/// The provider is OpenAI. It supports the models of its list, which all call functions, and says
/// nothing of its limits, nor of prices and abilities apart from its list.
pub proof fn law_what_is_known(p: OpenAIProvider, model: Seq<char>)
    ensures
        p.id() == "openai"@,
        p.catalogue().contains(model) <==> model == "gpt-4"@ || model == "gpt-4-turbo"@ || model
            == "gpt-4o"@ || model == "gpt-4o-mini"@ || model == "gpt-3.5-turbo"@ || model == "o1"@
            || model == "o1-mini"@ || model == "o1-preview"@,
        p.calls_functions(model) <==> p.catalogue().contains(model),
        p.prices(model) is None,
        p.limits() matches Ok(s) && s.remaining is None && s.limit is None && s.tokens_remaining
            is None && s.tokens_limit is None && s.reset_at is None && s.retry_after is None,
        p.abilities(model) matches Some(a) && !a.function_calling && !a.vision && !a.streaming
            && !a.json_mode && !a.caching && a.max_tokens == 0 && a.context_window == 0,
{
    let s = supported();
    assert(s[0] == "gpt-4"@ && s[1] == "gpt-4-turbo"@ && s[2] == "gpt-4o"@ && s[3] == "gpt-4o-mini"@
        && s[4] == "gpt-3.5-turbo"@ && s[5] == "o1"@ && s[6] == "o1-mini"@ && s[7]
            == "o1-preview"@);
}

/// Where neither the request nor the configuration names a model, the error says so.
pub proof fn law_no_model()
    ensures
        no_model_message()
            == "No model configured for OpenAIProvider — set default_model in OpenAIConfig or pass a model in the request"@,
{
}

} // verus!
