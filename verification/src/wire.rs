//! What the chat APIs of the providers have in common: parameters, tools, usage, messages in the
//! form that OpenAI defined.

use crate::cost_tracker;
use crate::cost_tracker::{CostEstimate, EstimateView};
use crate::error;
use crate::error::{ErrorView, LLMError};
use crate::http;
use crate::http::{HttpRequest, HttpRequestView, Method};
use crate::json;
use crate::json::{Json, JsonObject, JsonView};
use crate::text;
use crate::types;
use crate::types::{
    CallView, ChatCompletionRequest, ChatMessage, FunctionCall, FunctionDefinition, MessageView,
    ToolCall, Usage,
};
use vstd::prelude::*;

verus! {

/// The JSON of an optional text.
pub open spec fn opt_text_json(o: Option<Seq<char>>) -> Option<JsonView> {
    match o {
        Some(s) => Some(JsonView::Text(s)),
        None => None,
    }
}

/// The JSON of an optional count.
pub open spec fn opt_count_json(o: Option<u32>) -> Option<JsonView> {
    match o {
        Some(n) => Some(json::json_count(n as u64)),
        None => None,
    }
}

/// The JSON of the stop sequences; nothing where there are none.
pub open spec fn stops_json(stop: Seq<Seq<char>>) -> Option<JsonView> {
    if stop.len() == 0 {
        None
    } else {
        Some(json::json_texts(stop))
    }
}

/// `m` with the token limit, the temperature and the top-p value of a request.
pub open spec fn with_sampling(
    m: Map<Seq<char>, JsonView>,
    limit_key: Seq<char>,
    top_p_key: Seq<char>,
    request: ChatCompletionRequest,
) -> Map<Seq<char>, JsonView> {
    json::with_optional(
        json::with_optional(
            json::with_optional(m, limit_key, opt_count_json(request.max_tokens)),
            "temperature"@,
            json::opt_real_json(request.temperature),
        ),
        top_p_key,
        json::opt_real_json(request.top_p),
    )
}

/// `m` with the number of completions, the stop sequences and the penalties of a request.
pub open spec fn with_penalties(
    m: Map<Seq<char>, JsonView>,
    request: ChatCompletionRequest,
) -> Map<Seq<char>, JsonView> {
    json::with_optional(
        json::with_optional(
            json::with_optional(
                json::with_optional(m, "n"@, opt_count_json(request.n)),
                "stop"@,
                stops_json(text::texts(request.stop@)),
            ),
            "presence_penalty"@,
            json::opt_real_json(request.presence_penalty),
        ),
        "frequency_penalty"@,
        json::opt_real_json(request.frequency_penalty),
    )
}

/// The JSON of an optional real number.
pub fn real_of(o: &Option<json::Real>) -> (r: Option<Json>)
    ensures
        json::json_opt(r) == json::opt_real_json(*o),
{
    match o {
        Some(x) => Some(x.to_json()),
        None => None,
    }
}

fn count_of(o: Option<u32>) -> (r: Option<Json>)
    ensures
        json::json_opt(r) == opt_count_json(o),
{
    match o {
        Some(n) => Some(Json::of_count(n as u64)),
        None => None,
    }
}

/// The JSON of an optional text.
pub fn text_of(o: &Option<String>) -> (r: Option<Json>)
    ensures
        json::json_opt(r) == opt_text_json(text::opt_text(*o)),
{
    match o {
        Some(s) => Some(Json::Text(s.clone())),
        None => None,
    }
}

/// The JSON of the stop sequences; nothing where there are none.
pub fn stops_of(stop: &Vec<String>) -> (r: Option<Json>)
    ensures
        json::json_opt(r) == stops_json(text::texts(stop@)),
{
    if stop.len() == 0 {
        None
    } else {
        Some(Json::of_texts(stop))
    }
}

/// Sets the token limit, the temperature and the top-p value of a request.
pub fn set_sampling(
    body: &mut JsonObject,
    limit_key: &str,
    top_p_key: &str,
    request: &ChatCompletionRequest,
)
    ensures
        final(body)@ == with_sampling(old(body)@, limit_key@, top_p_key@, *request),
{
    body.set_optional(limit_key, count_of(request.max_tokens));
    body.set_optional("temperature", real_of(&request.temperature));
    body.set_optional(top_p_key, real_of(&request.top_p));
}

/// Sets the number of completions, the stop sequences and the penalties of a request.
pub fn set_penalties(body: &mut JsonObject, request: &ChatCompletionRequest)
    ensures
        final(body)@ == with_penalties(old(body)@, *request),
{
    body.set_optional("n", count_of(request.n));
    body.set_optional("stop", stops_of(&request.stop));
    body.set_optional("presence_penalty", real_of(&request.presence_penalty));
    body.set_optional("frequency_penalty", real_of(&request.frequency_penalty));
}

/// A function as its name, its description and its parameters.
pub open spec fn function_json(f: FunctionDefinition) -> JsonView {
    JsonView::Object(
        json::with_optional(
            json::with_optional(
                map!["name"@ => JsonView::Text(f.name@)],
                "description"@,
                opt_text_json(text::opt_text(f.description)),
            ),
            "parameters"@,
            json::json_opt(f.parameters),
        ),
    )
}

/// A function as a tool.
pub open spec fn tool_json(f: FunctionDefinition) -> JsonView {
    JsonView::Object(
        map!["type"@ => JsonView::Text("function"@)].insert("function"@, function_json(f)),
    )
}

/// The functions as tools.
pub open spec fn tools_json(functions: Seq<FunctionDefinition>) -> JsonView {
    JsonView::Array(functions.map_values(|f: FunctionDefinition| tool_json(f)))
}

fn copy_json(o: &Option<Json>) -> (r: Option<Json>)
    ensures
        json::json_opt(r) == json::json_opt(*o),
{
    match o {
        Some(j) => Some(j.duplicate()),
        None => None,
    }
}

/// A function as its name, its description and its parameters.
pub fn function_object(f: &FunctionDefinition) -> (r: Json)
    ensures
        r@ == function_json(*f),
{
    let mut o = JsonObject::new();
    o.set("name", Json::Text(f.name.clone()));
    o.set_optional("description", text_of(&f.description));
    o.set_optional("parameters", copy_json(&f.parameters));
    Json::Object(o)
}

/// The functions as tools.
pub fn tools(functions: &Vec<FunctionDefinition>) -> (r: Json)
    ensures
        r@ == tools_json(functions@),
{
    let mut items: Vec<Json> = Vec::new();
    let mut i: usize = 0;
    while i < functions.len()
        invariant
            i <= functions@.len(),
            items@.len() == i,
            forall|j: int| 0 <= j < i ==> items@[j]@ == tool_json(functions@[j]),
        decreases functions@.len() - i,
    {
        let mut o = JsonObject::new();
        o.set("type", Json::of_text("function"));
        o.set("function", function_object(&functions[i]));
        items.push(Json::Object(o));
        i = i + 1;
    }
    assert(json::items_view(items@) =~= functions@.map_values(
        |f: FunctionDefinition| tool_json(f),
    ));
    Json::Array(items)
}

/// A tool call in OpenAI's form. Only calls of custom functions have one.
pub open spec fn call_json(call: CallView) -> Option<JsonView> {
    match call {
        CallView::Custom { id, name, arguments } => Some(
            JsonView::Object(
                Map::empty().insert("id"@, JsonView::Text(text::text_or(id, Seq::empty()))).insert(
                    "type"@,
                    JsonView::Text("function"@),
                ).insert(
                    "function"@,
                    JsonView::Object(
                        Map::empty().insert("name"@, JsonView::Text(name)).insert(
                            "arguments"@,
                            JsonView::Text(arguments),
                        ),
                    ),
                ),
            ),
        ),
        _ => None,
    }
}

/// The values, followed by one more where there is one.
pub open spec fn and_then_one<T>(items: Seq<T>, last: Option<T>) -> Seq<T> {
    match last {
        Some(v) => items.push(v),
        None => items,
    }
}

/// The tool calls in OpenAI's form, in order.
pub open spec fn calls_json(calls: Seq<CallView>) -> Seq<JsonView>
    decreases calls.len(),
{
    if calls.len() == 0 {
        Seq::empty()
    } else {
        and_then_one(calls_json(calls.drop_last()), call_json(calls.last()))
    }
}

/// The member `tool_calls` of an assistant message; nothing where it would be empty.
pub open spec fn calls_member(calls: Option<Seq<CallView>>) -> Option<JsonView> {
    match calls {
        Some(c) => if calls_json(c).len() == 0 {
            None
        } else {
            Some(JsonView::Array(calls_json(c)))
        },
        None => None,
    }
}

/// An object with a role and a content.
pub open spec fn role_content(role: Seq<char>, content: JsonView) -> Map<Seq<char>, JsonView> {
    Map::empty().insert("role"@, JsonView::Text(role)).insert("content"@, content)
}

/// A message in OpenAI's form.
pub open spec fn message_json(m: MessageView) -> JsonView {
    JsonView::Object(
        match m {
            MessageView::System { content, name } => json::with_optional(
                role_content("system"@, JsonView::Text(content)),
                "name"@,
                opt_text_json(name),
            ),
            MessageView::User { content, name } => json::with_optional(
                role_content("user"@, JsonView::Text(content)),
                "name"@,
                opt_text_json(name),
            ),
            MessageView::Assistant { content, tool_calls, name } => json::with_optional(
                json::with_optional(
                    role_content(
                        "assistant"@,
                        match content {
                            Some(c) => JsonView::Text(c),
                            None => JsonView::Null,
                        },
                    ),
                    "tool_calls"@,
                    calls_member(tool_calls),
                ),
                "name"@,
                opt_text_json(name),
            ),
            MessageView::Tool { tool_call_id, content } => role_content(
                "tool"@,
                JsonView::Text(content),
            ).insert("tool_call_id"@, JsonView::Text(tool_call_id)),
            MessageView::Function { name, arguments } => role_content(
                "function"@,
                JsonView::Text(arguments),
            ).insert("name"@, JsonView::Text(name)),
        },
    )
}

/// The messages in OpenAI's form.
pub open spec fn messages_json(messages: Seq<MessageView>) -> JsonView {
    JsonView::Array(messages.map_values(|m: MessageView| message_json(m)))
}

/// An object with a role and a content.
pub fn role_object(role: &str, content: Json) -> (r: JsonObject)
    ensures
        r@ == role_content(role@, content@),
{
    let mut o = JsonObject::new();
    o.set("role", Json::of_text(role));
    o.set("content", content);
    o
}

fn call_object(call: &ToolCall) -> (r: Option<Json>)
    ensures
        json::json_opt(r) == call_json(call@),
{
    match call {
        ToolCall::Function(FunctionCall::Custom(custom)) => {
            let mut f = JsonObject::new();
            f.set("name", Json::Text(custom.name.clone()));
            f.set("arguments", Json::Text(custom.arguments.clone()));
            let mut o = JsonObject::new();
            let id = match &custom.id {
                Some(s) => s.clone(),
                None => String::new(),
            };
            o.set("id", Json::Text(id));
            o.set("type", Json::of_text("function"));
            o.set("function", Json::Object(f));
            Some(Json::Object(o))
        },
        _ => None,
    }
}

fn calls_array(calls: &Vec<ToolCall>) -> (r: Vec<Json>)
    ensures
        json::items_view(r@) == calls_json(types::calls_view(calls@)),
{
    let mut out: Vec<Json> = Vec::new();
    let mut i: usize = 0;
    let ghost all = types::calls_view(calls@);
    assert(all.take(0) =~= Seq::empty());
    assert(json::items_view(out@) =~= Seq::empty());
    while i < calls.len()
        invariant
            i <= calls@.len(),
            all == types::calls_view(calls@),
            json::items_view(out@) == calls_json(all.take(i as int)),
        decreases calls@.len() - i,
    {
        let found = call_object(&calls[i]);
        assert(all.take(i + 1).drop_last() =~= all.take(i as int));
        assert(all.take(i + 1).last() == calls@[i as int]@);
        match found {
            Some(j) => {
                let ghost before = out@;
                out.push(j);
                assert(json::items_view(out@) =~= json::items_view(before).push(j@));
            },
            None => {},
        }
        i = i + 1;
    }
    assert(all.take(i as int) =~= all);
    out
}

/// A message in OpenAI's form.
pub fn serialize_message(msg: &ChatMessage) -> (r: Json)
    ensures
        r@ == message_json(msg@),
{
    match msg {
        ChatMessage::System { content, name } => {
            let mut o = role_object("system", Json::Text(content.clone()));
            o.set_optional("name", text_of(name));
            Json::Object(o)
        },
        ChatMessage::User { content, name } => {
            let mut o = role_object("user", Json::Text(content.clone()));
            o.set_optional("name", text_of(name));
            Json::Object(o)
        },
        ChatMessage::Assistant { content, tool_calls, name } => {
            let text = match content {
                Some(c) => Json::Text(c.clone()),
                None => Json::Null,
            };
            let mut o = role_object("assistant", text);
            match tool_calls {
                Some(calls) => {
                    let serialized = calls_array(calls);
                    assert(json::items_view(serialized@).len() == serialized@.len());
                    if serialized.len() > 0 {
                        o.set("tool_calls", Json::Array(serialized));
                    }
                },
                None => {},
            }
            o.set_optional("name", text_of(name));
            Json::Object(o)
        },
        ChatMessage::Tool { tool_call_id, content } => {
            let mut o = role_object("tool", Json::Text(content.clone()));
            o.set("tool_call_id", Json::Text(tool_call_id.clone()));
            Json::Object(o)
        },
        ChatMessage::Function { name, arguments } => {
            let mut o = role_object("function", Json::Text(arguments.clone()));
            o.set("name", Json::Text(name.clone()));
            Json::Object(o)
        },
    }
}

/// The messages in OpenAI's form.
pub fn serialize_messages(messages: &Vec<ChatMessage>) -> (r: Json)
    ensures
        r@ == messages_json(types::messages_view(messages@)),
{
    let mut items: Vec<Json> = Vec::new();
    let mut i: usize = 0;
    while i < messages.len()
        invariant
            i <= messages@.len(),
            items@.len() == i,
            forall|j: int| 0 <= j < i ==> items@[j]@ == message_json(messages@[j]@),
        decreases messages@.len() - i,
    {
        let item = serialize_message(&messages[i]);
        items.push(item);
        i = i + 1;
    }
    assert(json::items_view(items@) =~= types::messages_view(messages@).map_values(
        |m: MessageView| message_json(m),
    ));
    Json::Array(items)
}

/// Where a response has usage statistics, all three counts stand in them.
pub open spec fn usage_complete(j: JsonView) -> bool {
    j.field("usage"@) matches JsonView::Object(u) ==> u.dom().contains("prompt_tokens"@)
        && u.dom().contains("completion_tokens"@) && u.dom().contains("total_tokens"@)
}

/// The usage statistics of a response in OpenAI's form.
pub open spec fn usage_of(j: JsonView) -> Option<Usage> {
    let u = j.field("usage"@);
    if u is Object {
        Some(
            Usage {
                prompt_tokens: u.field("prompt_tokens"@).count_or_zero() as u32,
                completion_tokens: u.field("completion_tokens"@).count_or_zero() as u32,
                total_tokens: u.field("total_tokens"@).count_or_zero() as u32,
            },
        )
    } else {
        None
    }
}

/// Whether all three counts stand in the usage statistics of a response.
pub fn check_usage(j: &Json) -> (r: bool)
    ensures
        r == usage_complete(j@),
{
    match j.at("usage") {
        Json::Object(u) => u.get("prompt_tokens").is_some() && u.get("completion_tokens").is_some()
            && u.get("total_tokens").is_some(),
        _ => true,
    }
}

/// The usage statistics of a response in OpenAI's form.
pub fn read_usage(j: &Json) -> (r: Option<Usage>)
    requires
        usage_complete(j@),
    ensures
        r == usage_of(j@),
{
    let u = j.at("usage");
    match u {
        Json::Object(_) => Some(
            Usage {
                prompt_tokens: u.at("prompt_tokens").count_or_zero() as u32,
                completion_tokens: u.at("completion_tokens").count_or_zero() as u32,
                total_tokens: u.at("total_tokens").count_or_zero() as u32,
            },
        ),
        _ => None,
    }
}

/// The model that a request names, else the default model, else an error with this message.
pub open spec fn resolved(model: Seq<char>, default: Option<Seq<char>>, message: Seq<char>) -> Result<
    Seq<char>,
    ErrorView,
> {
    if model.len() != 0 {
        Ok(model)
    } else {
        match default {
            Some(d) => Ok(d),
            None => Err(
                ErrorView::ConfigurationError { message, field: Some("default_model"@) },
            ),
        }
    }
}

/// The model that a request names, else the default model, else an error with this message.
pub fn resolve_model(model: &String, default: &Option<String>, message: &str) -> (r: Result<
    String,
    LLMError,
>)
    ensures
        http::seen(r) == resolved(model@, text::opt_text(*default), message@),
{
    if model.as_str().unicode_len() != 0 {
        Ok(model.clone())
    } else {
        match default {
            Some(d) => Ok(d.clone()),
            None => Err(error::configuration_error(message, "default_model")),
        }
    }
}

/// What a request is estimated to cost: its prompt by the size of its messages, its completion by
/// the limit that it sets, or a thousand tokens.
pub open spec fn estimated(
    request: ChatCompletionRequest,
    model: Seq<char>,
    input_price: u64,
    output_price: u64,
    provider: Seq<char>,
) -> EstimateView {
    cost_tracker::priced(
        types::prompt_tokens(types::messages_view(request.messages@)),
        match request.max_tokens {
            Some(n) => n,
            None => 1000,
        },
        input_price,
        output_price,
        model,
        provider,
    )
}

/// What a request is estimated to cost at prices per token.
pub fn estimate(
    request: &ChatCompletionRequest,
    model: &str,
    input_price: u64,
    output_price: u64,
    provider: &str,
) -> (r: CostEstimate)
    ensures
        r@ == estimated(*request, model@, input_price, output_price, provider@),
        r.input_cost == r.input_tokens * input_price,
        r.output_cost == r.output_tokens * output_price,
        r.total_cost == r.input_cost + r.output_cost,
{
    let output_tokens: u32 = match request.max_tokens {
        Some(n) => n,
        None => 1000,
    };
    CostEstimate::priced(
        types::estimate_prompt_tokens(&request.messages),
        output_tokens,
        input_price,
        output_price,
        model,
        provider,
    )
}

/// A request that posts JSON.
pub open spec fn posting(
    url: Seq<char>,
    headers: Seq<(Seq<char>, Seq<char>)>,
    body: JsonView,
) -> HttpRequestView {
    HttpRequestView { method: Method::Post, url, headers, body: Some(body) }
}

/// A request that posts JSON.
pub fn post(url: String, headers: Vec<(String, String)>, body: Json) -> (r: HttpRequest)
    ensures
        r@ == posting(url@, http::headers_view(headers@), body@),
{
    HttpRequest { method: Method::Post, url, headers, body: Some(body) }
}

/// A request that gets an answer, with these headers.
pub open spec fn getting(url: Seq<char>, headers: Seq<(Seq<char>, Seq<char>)>) -> HttpRequestView {
    HttpRequestView { method: Method::Get, url, headers, body: None }
}

/// A request that gets an answer, with these headers.
pub fn get(url: String, headers: Vec<(String, String)>) -> (r: HttpRequest)
    ensures
        r@ == getting(url@, http::headers_view(headers@)),
{
    HttpRequest { method: Method::Get, url, headers, body: None }
}

/// The texts among some values, in order.
pub open spec fn texts_among(items: Seq<JsonView>) -> Seq<Seq<char>>
    decreases items.len(),
{
    if items.len() == 0 {
        Seq::empty()
    } else {
        and_then_one(texts_among(items.drop_last()), items.last().text())
    }
}

/// The texts in an array; none where it is no array.
pub fn read_texts(j: &Json) -> (r: Vec<String>)
    ensures
        text::texts(r@) == texts_among(j@.items_or_none()),
{
    let mut out: Vec<String> = Vec::new();
    assert(text::texts(out@) =~= Seq::empty());
    match j.as_items() {
        Some(items) => {
            let mut i: usize = 0;
            let ghost all = json::items_view(items@);
            assert(all.take(0) =~= Seq::empty());
            while i < items.len()
                invariant
                    i <= items@.len(),
                    all == json::items_view(items@),
                    text::texts(out@) == texts_among(all.take(i as int)),
                decreases items@.len() - i,
            {
                assert(all.take(i + 1).drop_last() =~= all.take(i as int));
                assert(all.take(i + 1).last() == items@[i as int]@);
                match items[i].as_text() {
                    Some(s) => {
                        let ghost before = out@;
                        out.push(s.to_owned());
                        assert(text::texts(out@) =~= text::texts(before).push(s@));
                    },
                    None => {},
                }
                i = i + 1;
            }
            assert(all.take(i as int) =~= all);
        },
        None => {
            assert(j@.items_or_none() =~= Seq::empty());
        },
    }
    out
}

/// The value that arguments stand for: an empty object where they are no JSON.
pub open spec fn arguments_value(parsed: Option<JsonView>) -> JsonView {
    match parsed {
        Some(j) => j,
        None => JsonView::Object(Map::empty()),
    }
}

/// The value that arguments stand for, given what reading them as JSON came to.
pub fn make_arguments(parsed: Option<Json>) -> (r: Json)
    ensures
        r@ == arguments_value(json::json_opt(parsed)),
{
    match parsed {
        Some(j) => j,
        None => Json::Object(JsonObject::new()),
    }
}

/// The message that some texts and some calls make up.
pub open spec fn assembled(texts: Seq<Seq<char>>, calls: Seq<CallView>) -> MessageView {
    if calls.len() == 0 {
        types::assistant_text(text::joined(texts))
    } else {
        MessageView::Assistant {
            content: if texts.len() == 0 {
                None
            } else {
                Some(text::joined(texts))
            },
            tool_calls: Some(calls),
            name: None,
        }
    }
}

/// The message that some texts and some calls make up.
pub fn assemble(texts: &Vec<String>, calls: Vec<ToolCall>) -> (r: ChatMessage)
    ensures
        r@ == assembled(text::texts(texts@), types::calls_view(calls@)),
{
    assert(types::calls_view(calls@).len() == calls@.len());
    assert(text::texts(texts@).len() == texts@.len());
    if calls.len() == 0 {
        ChatMessage::assistant(text::join(texts).as_str())
    } else {
        ChatMessage::Assistant {
            content: if texts.len() == 0 {
                None
            } else {
                Some(text::join(texts))
            },
            tool_calls: Some(calls),
            name: None,
        }
    }
}

/// An estimate counts the messages of the request and the limit that it sets, or a thousand
/// tokens where it sets none, and takes each token at its price.
pub proof fn law_estimates_add_up(
    request: ChatCompletionRequest,
    model: Seq<char>,
    input_price: u64,
    output_price: u64,
    provider: Seq<char>,
)
    ensures
        ({
            let e = estimated(request, model, input_price, output_price, provider);
            &&& e.input_tokens == types::prompt_tokens(types::messages_view(request.messages@))
            &&& request.max_tokens matches Some(n) ==> e.output_tokens == n
            &&& request.max_tokens is None ==> e.output_tokens == 1000
            &&& e.input_cost == e.input_tokens * input_price
            &&& e.output_cost == e.output_tokens * output_price
            &&& e.total_cost == e.input_cost + e.output_cost
            &&& e.model == model
            &&& e.provider == provider
        }),
{
    let e = estimated(request, model, input_price, output_price, provider);
    assert(0 <= e.input_tokens * input_price <= 0xffff_ffff * 0xffff_ffff_ffff_ffff)
        by (nonlinear_arith)
        requires
            0 <= e.input_tokens <= 0xffff_ffff,
            0 <= input_price <= 0xffff_ffff_ffff_ffff,
    ;
    assert(0 <= e.output_tokens * output_price <= 0xffff_ffff * 0xffff_ffff_ffff_ffff)
        by (nonlinear_arith)
        requires
            0 <= e.output_tokens <= 0xffff_ffff,
            0 <= output_price <= 0xffff_ffff_ffff_ffff,
    ;
}

proof fn lemma_parameter_keys()
    ensures
        "n"@.len() == 1,
        "stop"@.len() == 4,
        "presence_penalty"@.len() == 16,
        "frequency_penalty"@.len() == 17,
        "temperature"@.len() == 11,
{
    reveal_strlit("n");
    reveal_strlit("stop");
    reveal_strlit("presence_penalty");
    reveal_strlit("frequency_penalty");
    reveal_strlit("temperature");
}

/// A real number stands in JSON as itself, or as null where JSON has no number for it.
pub open spec fn stands_for(j: JsonView, x: json::Real) -> bool {
    match x.number {
        Some(n) => j == JsonView::Number(json::number_view(n)),
        None => j is Null,
    }
}

/// The body has this real number under the key, and no such member where there is none.
pub open spec fn carries_real(body: JsonView, key: Seq<char>, o: Option<json::Real>) -> bool {
    match o {
        Some(x) => body matches JsonView::Object(m) && m.dom().contains(key)
            && stands_for(m[key], x),
        None => !body.has(key),
    }
}

/// The body has this count under the key, and no such member where there is none.
pub open spec fn carries_count(body: JsonView, key: Seq<char>, o: Option<u32>) -> bool {
    match o {
        Some(n) => body.holds(key, JsonView::Number(json::NumberView::Unsigned(n as u64))),
        None => !body.has(key),
    }
}

/// The body has these texts under the key, in order, and no such member where there are none.
pub open spec fn carries_texts(body: JsonView, key: Seq<char>, texts: Seq<String>) -> bool {
    if texts.len() == 0 {
        !body.has(key)
    } else {
        body.holds(
            key,
            JsonView::Array(Seq::new(texts.len(), |i: int| JsonView::Text(texts[i]@))),
        )
    }
}

/// The token limit, the temperature and the top-p value of a request are sent as they are where
/// the request sets them, and not at all where it does not. Nothing else changes.
pub proof fn law_sampling_is_sent(
    m: Map<Seq<char>, JsonView>,
    limit_key: Seq<char>,
    top_p_key: Seq<char>,
    request: ChatCompletionRequest,
    other: Seq<char>,
)
    requires
        limit_key != top_p_key,
        limit_key != "temperature"@,
        top_p_key != "temperature"@,
        !m.dom().contains(limit_key),
        !m.dom().contains(top_p_key),
        !m.dom().contains("temperature"@),
        other != limit_key,
        other != top_p_key,
        other != "temperature"@,
    ensures
        ({
            let sent = JsonView::Object(with_sampling(m, limit_key, top_p_key, request));
            &&& request.max_tokens matches Some(n) ==> sent.holds(
                limit_key,
                JsonView::Number(json::NumberView::Unsigned(n as u64)),
            )
            &&& request.max_tokens is None ==> !sent.has(limit_key)
            &&& request.temperature matches Some(x) ==> sent.has("temperature"@) && stands_for(
                with_sampling(m, limit_key, top_p_key, request)["temperature"@],
                x,
            )
            &&& request.temperature is None ==> !sent.has("temperature"@)
            &&& request.top_p matches Some(x) ==> sent.has(top_p_key) && stands_for(
                with_sampling(m, limit_key, top_p_key, request)[top_p_key],
                x,
            )
            &&& request.top_p is None ==> !sent.has(top_p_key)
            &&& sent.has(other) <==> m.dom().contains(other)
            &&& m.dom().contains(other) ==> sent.holds(other, m[other])
        }),
{
}

/// The number of completions, the stop sequences and the penalties of a request are sent as they
/// are where the request sets them, and not at all where it does not. Nothing else changes.
pub proof fn law_penalties_are_sent(
    m: Map<Seq<char>, JsonView>,
    request: ChatCompletionRequest,
    other: Seq<char>,
)
    requires
        !m.dom().contains("n"@),
        !m.dom().contains("stop"@),
        !m.dom().contains("presence_penalty"@),
        !m.dom().contains("frequency_penalty"@),
        other != "n"@,
        other != "stop"@,
        other != "presence_penalty"@,
        other != "frequency_penalty"@,
    ensures
        ({
            let sent = JsonView::Object(with_penalties(m, request));
            &&& request.n matches Some(n) ==> sent.holds(
                "n"@,
                JsonView::Number(json::NumberView::Unsigned(n as u64)),
            )
            &&& request.n is None ==> !sent.has("n"@)
            &&& request.stop@.len() == 0 ==> !sent.has("stop"@)
            &&& request.stop@.len() > 0 ==> sent.holds(
                "stop"@,
                JsonView::Array(
                    Seq::new(request.stop@.len(), |i: int| JsonView::Text(request.stop@[i]@)),
                ),
            )
            &&& request.presence_penalty matches Some(x) ==> sent.has("presence_penalty"@)
                && stands_for(with_penalties(m, request)["presence_penalty"@], x)
            &&& request.presence_penalty is None ==> !sent.has("presence_penalty"@)
            &&& request.frequency_penalty matches Some(x) ==> sent.has("frequency_penalty"@)
                && stands_for(with_penalties(m, request)["frequency_penalty"@], x)
            &&& request.frequency_penalty is None ==> !sent.has("frequency_penalty"@)
            &&& sent.has(other) <==> m.dom().contains(other)
            &&& m.dom().contains(other) ==> sent.holds(other, m[other])
        }),
{
    lemma_parameter_keys();
    law_stops(request.stop@);
}

/// Stop sequences are sent in their order, each as its text, and not at all where there are none.
pub proof fn law_stops(stop: Seq<String>)
    ensures
        stop.len() == 0 ==> stops_json(text::texts(stop)) is None,
        stop.len() > 0 ==> stops_json(text::texts(stop)) == Some(
            JsonView::Array(Seq::new(stop.len(), |i: int| JsonView::Text(stop[i]@))),
        ),
{
    assert(text::texts(stop).map_values(|s: Seq<char>| JsonView::Text(s)) =~= Seq::new(
        stop.len(),
        |i: int| JsonView::Text(stop[i]@),
    ));
}

/// A tool is a function with its name, and with its description and its parameters where it has
/// some.
pub proof fn law_tools_are_sent(functions: Seq<FunctionDefinition>, i: int)
    requires
        0 <= i < functions.len(),
    ensures
        ({
            let f = functions[i];
            let described = function_json(f);
            &&& tools_json(functions) matches JsonView::Array(items) && items.len()
                == functions.len() && items[i].holds("type"@, JsonView::Text("function"@))
                && items[i].holds("function"@, described)
            &&& described.holds("name"@, JsonView::Text(f.name@))
            &&& f.description matches Some(d) ==> described.holds(
                "description"@,
                JsonView::Text(d@),
            )
            &&& f.description is None ==> !described.has("description"@)
            &&& f.parameters matches Some(p) ==> described.holds("parameters"@, p@)
            &&& f.parameters is None ==> !described.has("parameters"@)
        }),
{
    reveal_strlit("type");
    reveal_strlit("function");
    reveal_strlit("name");
    reveal_strlit("description");
    reveal_strlit("parameters");
    assert("type"@.len() == 4);
    assert("function"@.len() == 8);
    assert("name"@.len() == 4);
    assert("description"@.len() == 11);
    assert("parameters"@.len() == 10);
    assert("type"@[0] != "name"@[0]);
}

/// A message is sent in OpenAI's form under its own role, with all of its text, and with its name
/// or identifier where it has one.
pub proof fn law_messages_are_sent(m: MessageView)
    ensures
        match m {
            MessageView::System { content, name } => {
                &&& message_json(m).holds("role"@, JsonView::Text("system"@))
                &&& message_json(m).holds("content"@, JsonView::Text(content))
                &&& message_json(m).says("name"@, name)
                &&& message_json(m).has("name"@) <==> name is Some
                &&& !message_json(m).has("tool_calls"@)
            },
            MessageView::User { content, name } => {
                &&& message_json(m).holds("role"@, JsonView::Text("user"@))
                &&& message_json(m).holds("content"@, JsonView::Text(content))
                &&& message_json(m).says("name"@, name)
                &&& message_json(m).has("name"@) <==> name is Some
                &&& !message_json(m).has("tool_calls"@)
            },
            MessageView::Assistant { content, tool_calls, name } => {
                &&& message_json(m).holds("role"@, JsonView::Text("assistant"@))
                &&& content matches Some(c) ==> message_json(m).holds(
                    "content"@,
                    JsonView::Text(c),
                )
                &&& content is None ==> message_json(m).holds("content"@, JsonView::Null)
                &&& message_json(m).says("name"@, name)
                &&& message_json(m).has("name"@) <==> name is Some
                &&& (tool_calls matches Some(c) ==> c.len() == 0) ==> !message_json(m).has(
                    "tool_calls"@,
                )
            },
            MessageView::Tool { tool_call_id, content } => {
                &&& message_json(m).holds("role"@, JsonView::Text("tool"@))
                &&& message_json(m).holds("content"@, JsonView::Text(content))
                &&& message_json(m).holds("tool_call_id"@, JsonView::Text(tool_call_id))
            },
            MessageView::Function { name, arguments } => {
                &&& message_json(m).holds("role"@, JsonView::Text("function"@))
                &&& message_json(m).holds("content"@, JsonView::Text(arguments))
                &&& message_json(m).holds("name"@, JsonView::Text(name))
            },
        },
{
    reveal_strlit("role");
    reveal_strlit("content");
    reveal_strlit("name");
    reveal_strlit("tool_calls");
    reveal_strlit("tool_call_id");
    assert("role"@.len() == 4);
    assert("content"@.len() == 7);
    assert("name"@.len() == 4);
    assert("tool_calls"@.len() == 10);
    assert("tool_call_id"@.len() == 12);
    assert("role"@[0] != "name"@[0]);
    if let MessageView::Assistant { tool_calls: Some(c), .. } = m {
        if c.len() == 0 {
            assert(calls_json(c) =~= Seq::empty());
        }
    }
}

/// One more call of a custom function is sent after the others, with its identifier, empty where
/// it has none, its name and its arguments. Calls of other kinds are not sent.
pub proof fn law_calls_are_sent(
    content: Option<Seq<char>>,
    name: Option<Seq<char>>,
    calls: Seq<CallView>,
    call: CallView,
    sent: Seq<JsonView>,
)
    requires
        message_json(
            (MessageView::Assistant { content, tool_calls: Some(calls), name }),
        ).lists("tool_calls"@, sent),
    ensures
        ({
            let after = message_json(
                (MessageView::Assistant { content, tool_calls: Some(calls.push(call)), name }),
            );
            match call {
                CallView::Custom { id, name: called, arguments } => exists|
                    item: JsonView,
                    function: JsonView,
                |
                    #![trigger item.holds("function"@, function)]
                    after.holds("tool_calls"@, JsonView::Array(sent.push(item))) && item.holds(
                        "type"@,
                        JsonView::Text("function"@),
                    ) && (id matches Some(s) ==> item.holds("id"@, JsonView::Text(s)))
                        && (id is None
                        ==> item.holds("id"@, JsonView::Text(Seq::empty()))) && item.holds(
                        "function"@,
                        function,
                    ) && function.holds("name"@, JsonView::Text(called)) && function.holds(
                        "arguments"@,
                        JsonView::Text(arguments),
                    ),
                _ => after.lists("tool_calls"@, sent) && (sent.len() == 0 ==> !after.has(
                    "tool_calls"@,
                )),
            }
        }),
{
    reveal_strlit("role");
    reveal_strlit("content");
    reveal_strlit("name");
    reveal_strlit("tool_calls");
    reveal_strlit("id");
    reveal_strlit("type");
    reveal_strlit("function");
    reveal_strlit("arguments");
    assert("role"@.len() == 4);
    assert("content"@.len() == 7);
    assert("name"@.len() == 4);
    assert("tool_calls"@.len() == 10);
    assert("id"@.len() == 2);
    assert("type"@.len() == 4);
    assert("function"@.len() == 8);
    assert("arguments"@.len() == 9);
    assert("role"@[0] != "name"@[0]);
    assert("role"@[0] != "type"@[0]);
    assert("name"@[0] != "type"@[0]);
    let before = message_json(MessageView::Assistant { content, tool_calls: Some(calls), name });
    assert(calls.push(call).drop_last() =~= calls);
    if calls_json(calls).len() == 0 {
        assert(calls_json(calls) =~= sent);
    } else {
        assert(before.holds("tool_calls"@, JsonView::Array(calls_json(calls))));
        assert(calls_json(calls) == sent);
    }
    match call {
        CallView::Custom { id, name: called, arguments } => {
            let item = call_json(call)->Some_0;
            let function = JsonView::Object(
                Map::empty().insert("name"@, JsonView::Text(called)).insert(
                    "arguments"@,
                    JsonView::Text(arguments),
                ),
            );
            assert(calls_json(calls.push(call)) == sent.push(item));
            assert(item.holds("function"@, function));
        },
        _ => {},
    }
}

/// The messages are sent one by one, in their order.
pub proof fn law_conversations_are_sent(messages: Seq<MessageView>, m: MessageView)
    ensures
        messages_json(messages) matches JsonView::Array(items) && items.len() == messages.len()
            && messages_json(messages.push(m)) == JsonView::Array(items.push(message_json(m))),
{
    assert(messages.push(m).map_values(|m: MessageView| message_json(m)) =~= messages.map_values(
        |m: MessageView| message_json(m),
    ).push(message_json(m)));
}

/// The three counts in the usage statistics of an answer are read as they stand there, in 32 bits;
/// without statistics nothing is read.
pub proof fn law_usage_is_read(j: JsonView, u: JsonView, prompt: u64, completion: u64, all: u64)
    requires
        j.offers("usage"@, u),
        u.counts("prompt_tokens"@, prompt),
        u.counts("completion_tokens"@, completion),
        u.counts("total_tokens"@, all),
    ensures
        usage_of(j) is Some <==> u is Object,
        usage_of(j) matches Some(r) ==> r.prompt_tokens == prompt % 0x1_0000_0000
            && r.completion_tokens == completion % 0x1_0000_0000 && r.total_tokens == all
            % 0x1_0000_0000,
{
    json::lemma_low_half(prompt);
    json::lemma_low_half(completion);
    json::lemma_low_half(all);
}

/// Statistics are complete if and only if all three counts stand in them; an answer without any is
/// complete too.
pub proof fn law_complete_usage(j: JsonView, u: JsonView)
    requires
        j.offers("usage"@, u),
    ensures
        usage_complete(j) <==> (u is Object ==> u.has("prompt_tokens"@) && u.has(
            "completion_tokens"@,
        ) && u.has("total_tokens"@)),
{
}

/// A request is posted with its URL, its headers and its body, or gets an answer without a body.
pub proof fn law_requests(url: Seq<char>, headers: Seq<(Seq<char>, Seq<char>)>, body: JsonView)
    ensures
        posting(url, headers, body).method == Method::Post,
        posting(url, headers, body).url == url,
        posting(url, headers, body).headers == headers,
        posting(url, headers, body).body == Some(body),
        getting(url, headers).method == Method::Get,
        getting(url, headers).url == url,
        getting(url, headers).headers == headers,
        getting(url, headers).body is None,
{
}

/// A request that names a model is for that model; one that names none is for the default model,
/// and fails where there is no default.
pub proof fn law_models_are_resolved(model: Seq<char>, default: Seq<char>, message: Seq<char>)
    requires
        model.len() > 0,
    ensures
        resolved(model, Some(default), message) == Ok::<Seq<char>, ErrorView>(model),
        resolved(model, None, message) == Ok::<Seq<char>, ErrorView>(model),
        resolved(Seq::empty(), Some(default), message) == Ok::<Seq<char>, ErrorView>(default),
        resolved(Seq::empty(), None, message) == Err::<Seq<char>, ErrorView>(
            (ErrorView::ConfigurationError { message, field: Some("default_model"@) }),
        ),
{
}

/// The texts among some values are all of those that are texts, in order.
pub proof fn law_texts_among_values(items: Seq<JsonView>, item: JsonView)
    ensures
        texts_among(Seq::<JsonView>::empty()) == Seq::<Seq<char>>::empty(),
        match item {
            JsonView::Text(s) => texts_among(items.push(item)) == texts_among(items).push(s),
            _ => texts_among(items.push(item)) == texts_among(items),
        },
{
    assert(items.push(item).drop_last() =~= items);
}

} // verus!
