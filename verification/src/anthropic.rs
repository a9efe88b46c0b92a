//! The Anthropic provider.

use crate::catalogue;
use crate::catalogue::{FamilyEntry, ModelFamily};
use crate::cost_tracker::{CostEstimate, EstimateView};
use crate::error;
use crate::error::{ErrorView, LLMError};
use crate::http;
use crate::http::{HttpFailure, HttpOutcome, HttpRequest, HttpRequestView, OutcomeView};
use crate::json;
use crate::json::{Json, JsonObject, JsonView};
use crate::provider;
use crate::provider::LLMProvider;
use crate::rate_limiter;
use crate::rate_limiter::RateLimitStatus;
use crate::streaming::{ChunkStream, Dialect};
use crate::text;
use crate::types;
use crate::types::{
    CallView, CapabilitiesView, ChatCompletionRequest, ChatCompletionResponse, ChatMessage, Choice,
    ChoiceView, FullModelInfo, FunctionCall, FunctionDefinition, MessageView, ModelCapabilities,
    ModelPricing, ResponseView, ToolCall, Usage,
};
use crate::wire;
use vstd::prelude::*;

verus! {

/// Anthropic configuration.
#[derive(Debug, Clone)]
pub struct AnthropicConfig {
    pub api_key: String,
    pub default_model: Option<String>,
    /// Base URL of the API or of a compatible proxy.
    pub base_url: Option<String>,
}

impl Default for AnthropicConfig {
    fn default() -> (r: AnthropicConfig)
        ensures
            r.api_key@ == Seq::<char>::empty(),
            r.default_model is None,
            r.base_url is None,
    {
        AnthropicConfig { api_key: String::new(), default_model: None, base_url: None }
    }
}

/// The Anthropic provider. The name of its family of models is given to it.
#[derive(Debug)]
pub struct AnthropicProvider {
    config: AnthropicConfig,
    family: ModelFamily,
}

/// What a turn of the conversation holds: plain text or content blocks.
pub enum ContentView {
    Text(Seq<char>),
    Blocks(Seq<JsonView>),
}

/// A turn of the conversation, of the user or of the assistant.
pub struct TurnView {
    pub user: bool,
    pub content: ContentView,
}

/// A block of text.
pub open spec fn text_block(s: Seq<char>) -> JsonView {
    JsonView::Object(
        Map::empty().insert("type"@, JsonView::Text("text"@)).insert("text"@, JsonView::Text(s)),
    )
}

/// A block with the result of a tool.
pub open spec fn result_block(id: Seq<char>, content: Seq<char>) -> JsonView {
    JsonView::Object(
        Map::empty().insert("type"@, JsonView::Text("tool_result"@)).insert(
            "tool_use_id"@,
            JsonView::Text(id),
        ).insert("content"@, JsonView::Text(content)),
    )
}

/// A block with the use of a tool.
pub open spec fn use_block(id: Seq<char>, name: Seq<char>, input: JsonView) -> JsonView {
    JsonView::Object(
        Map::empty().insert("type"@, JsonView::Text("tool_use"@)).insert(
            "id"@,
            JsonView::Text(id),
        ).insert("name"@, JsonView::Text(name)).insert("input"@, input),
    )
}

/// The block of a tool call.
pub open spec fn call_block(call: CallView) -> JsonView {
    match call {
        CallView::Custom { id, name, arguments } => use_block(
            text::text_or(id, "unknown"@),
            name,
            wire::arguments_value(json::json_parsed(arguments)),
        ),
        CallView::Code { code, .. } => use_block(
            "code_interpreter"@,
            "code_interpreter"@,
            JsonView::Object(Map::empty().insert("code"@, JsonView::Text(code))),
        ),
        CallView::Retrieval { query, .. } => use_block(
            "retrieval"@,
            "retrieval"@,
            JsonView::Object(Map::empty().insert("query"@, JsonView::Text(query))),
        ),
    }
}

/// The blocks of an assistant's turn with tool calls: its text where it has some, then the calls.
pub open spec fn assistant_blocks(content: Option<Seq<char>>, calls: Seq<CallView>) -> Seq<JsonView> {
    let opening = match content {
        Some(t) => if t.len() == 0 {
            Seq::empty()
        } else {
            seq![text_block(t)]
        },
        None => Seq::empty(),
    };
    opening + calls.map_values(|c: CallView| call_block(c))
}

/// The system prompt: the system messages, with blank lines between them.
pub open spec fn system_prompt(messages: Seq<MessageView>) -> Option<Seq<char>>
    decreases messages.len(),
{
    if messages.len() == 0 {
        None
    } else {
        let before = system_prompt(messages.drop_last());
        match messages.last() {
            MessageView::System { content, .. } => Some(
                match before {
                    Some(existing) => existing + "\n\n"@ + content,
                    None => content,
                },
            ),
            _ => before,
        }
    }
}

/// The last turn is the user's.
pub open spec fn user_last(turns: Seq<TurnView>) -> bool {
    turns.len() > 0 && turns.last().user
}

/// `turns` with a text of the user. It joins the user's turn where that is the last one, whose
/// blocks, if it holds blocks, give way.
pub open spec fn with_user_text(turns: Seq<TurnView>, content: Seq<char>) -> Seq<TurnView> {
    if user_last(turns) {
        let existing = match turns.last().content {
            ContentView::Text(t) => t,
            ContentView::Blocks(_) => Seq::empty(),
        };
        turns.drop_last().push(
            TurnView { user: true, content: ContentView::Text(existing + "\n\n"@ + content) },
        )
    } else {
        turns.push(TurnView { user: true, content: ContentView::Text(content) })
    }
}

/// `turns` with the result of a tool. It joins the user's turn where that is the last one.
pub open spec fn with_result(turns: Seq<TurnView>, block: JsonView) -> Seq<TurnView> {
    if user_last(turns) {
        let blocks = match turns.last().content {
            ContentView::Blocks(b) => b.push(block),
            ContentView::Text(t) => if t.len() == 0 {
                seq![block]
            } else {
                seq![text_block(t), block]
            },
        };
        turns.drop_last().push(TurnView { user: true, content: ContentView::Blocks(blocks) })
    } else {
        turns.push(TurnView { user: true, content: ContentView::Blocks(seq![block]) })
    }
}

/// `turns` with the turn that a message makes.
pub open spec fn with_message(turns: Seq<TurnView>, m: MessageView) -> Seq<TurnView> {
    match m {
        MessageView::System { .. } => turns,
        MessageView::User { content, .. } => with_user_text(turns, content),
        MessageView::Assistant { content, tool_calls, .. } => turns.push(
            TurnView {
                user: false,
                content: match tool_calls {
                    Some(calls) => if calls.len() == 0 {
                        ContentView::Text(text::text_or(content, Seq::empty()))
                    } else {
                        ContentView::Blocks(assistant_blocks(content, calls))
                    },
                    None => ContentView::Text(text::text_or(content, Seq::empty())),
                },
            },
        ),
        MessageView::Tool { tool_call_id, content } => with_result(
            turns,
            result_block(tool_call_id, content),
        ),
        MessageView::Function { name, arguments } => with_result(
            turns,
            result_block(name, arguments),
        ),
    }
}

/// The turns that the messages make, system messages aside.
pub open spec fn turns_of(messages: Seq<MessageView>) -> Seq<TurnView>
    decreases messages.len(),
{
    if messages.len() == 0 {
        Seq::empty()
    } else {
        with_message(turns_of(messages.drop_last()), messages.last())
    }
}

/// A turn as JSON.
pub open spec fn turn_json(t: TurnView) -> JsonView {
    JsonView::Object(
        wire::role_content(
            if t.user {
                "user"@
            } else {
                "assistant"@
            },
            match t.content {
                ContentView::Text(s) => JsonView::Text(s),
                ContentView::Blocks(b) => JsonView::Array(b),
            },
        ),
    )
}

/// The turns as JSON.
pub open spec fn turns_json(turns: Seq<TurnView>) -> Seq<JsonView> {
    turns.map_values(|t: TurnView| turn_json(t))
}

enum Content {
    Text(String),
    Blocks(Vec<Json>),
}

struct Turn {
    user: bool,
    content: Content,
}

spec fn content_view(c: Content) -> ContentView {
    match c {
        Content::Text(s) => ContentView::Text(s@),
        Content::Blocks(b) => ContentView::Blocks(json::items_view(b@)),
    }
}

spec fn turn_view(t: Turn) -> TurnView {
    TurnView { user: t.user, content: content_view(t.content) }
}

spec fn turns_view(turns: Seq<Turn>) -> Seq<TurnView> {
    turns.map_values(|t: Turn| turn_view(t))
}

fn make_text_block(s: &str) -> (r: Json)
    ensures
        r@ == text_block(s@),
{
    let mut o = JsonObject::new();
    o.set("type", Json::of_text("text"));
    o.set("text", Json::of_text(s));
    Json::Object(o)
}

fn make_result_block(id: &str, content: &str) -> (r: Json)
    ensures
        r@ == result_block(id@, content@),
{
    let mut o = JsonObject::new();
    o.set("type", Json::of_text("tool_result"));
    o.set("tool_use_id", Json::of_text(id));
    o.set("content", Json::of_text(content));
    Json::Object(o)
}

/// A block with the use of a tool.
pub fn make_use_block(id: &str, name: &str, input: Json) -> (r: Json)
    ensures
        r@ == use_block(id@, name@, input@),
{
    let mut o = JsonObject::new();
    o.set("type", Json::of_text("tool_use"));
    o.set("id", Json::of_text(id));
    o.set("name", Json::of_text(name));
    o.set("input", input);
    Json::Object(o)
}

fn make_call_block(call: &ToolCall) -> (r: Json)
    ensures
        r@ == call_block(call@),
{
    match call {
        ToolCall::Function(FunctionCall::Custom(custom)) => {
            let id = match &custom.id {
                Some(s) => s.as_str(),
                None => "unknown",
            };
            make_use_block(
                id,
                custom.name.as_str(),
                wire::make_arguments(json::parse(custom.arguments.as_str())),
            )
        },
        ToolCall::Function(FunctionCall::Code(code)) => {
            let mut input = JsonObject::new();
            input.set("code", Json::Text(code.code.clone()));
            make_use_block("code_interpreter", "code_interpreter", Json::Object(input))
        },
        ToolCall::Function(FunctionCall::Retrieval(retrieval)) => {
            let mut input = JsonObject::new();
            input.set("query", Json::Text(retrieval.query.clone()));
            make_use_block("retrieval", "retrieval", Json::Object(input))
        },
    }
}

fn make_assistant_blocks(content: &Option<String>, calls: &Vec<ToolCall>) -> (r: Vec<Json>)
    ensures
        json::items_view(r@) == assistant_blocks(
            text::opt_text(*content),
            types::calls_view(calls@),
        ),
{
    let mut blocks: Vec<Json> = Vec::new();
    match content {
        Some(t) => {
            if t.as_str().unicode_len() != 0 {
                blocks.push(make_text_block(t.as_str()));
            }
        },
        None => {},
    }
    let ghost opening = json::items_view(blocks@);
    let ghost all = types::calls_view(calls@);
    proof {
        match content {
            Some(t) => {
                if t@.len() != 0 {
                    assert(opening =~= seq![text_block(t@)]);
                } else {
                    assert(opening =~= Seq::empty());
                }
            },
            None => {
                assert(opening =~= Seq::empty());
            },
        }
    }
    let mut i: usize = 0;
    assert(opening + all.take(0).map_values(|c: CallView| call_block(c)) =~= opening);
    while i < calls.len()
        invariant
            i <= calls@.len(),
            all == types::calls_view(calls@),
            json::items_view(blocks@) == opening + all.take(i as int).map_values(
                |c: CallView| call_block(c),
            ),
        decreases calls@.len() - i,
    {
        let ghost before = blocks@;
        let block = make_call_block(&calls[i]);
        blocks.push(block);
        assert(json::items_view(blocks@) =~= json::items_view(before).push(block@));
        assert(opening + all.take(i + 1).map_values(|c: CallView| call_block(c)) =~= (opening
            + all.take(i as int).map_values(|c: CallView| call_block(c))).push(
            call_block(all[i as int]),
        ));
        i = i + 1;
    }
    assert(all.take(i as int) =~= all);
    blocks
}

fn add_turn(turns: &mut Vec<Turn>, turn: Turn)
    ensures
        turns_view(final(turns)@) == turns_view(old(turns)@).push(turn_view(turn)),
{
    turns.push(turn);
    assert(turns_view(turns@) =~= turns_view(old(turns)@).push(turn_view(turn)));
}

/// Takes the last turn away where it is the user's.
fn take_user_turn(turns: &mut Vec<Turn>) -> (r: Option<Turn>)
    ensures
        match r {
            Some(t) => user_last(turns_view(old(turns)@)) && turn_view(t) == turns_view(
                old(turns)@,
            ).last() && turns_view(final(turns)@) == turns_view(old(turns)@).drop_last(),
            None => !user_last(turns_view(old(turns)@)) && final(turns)@ == old(turns)@,
        },
{
    let ghost before = turns@;
    assert(turns_view(before).len() == before.len());
    if turns.len() == 0 {
        return None;
    }
    assert(turns_view(before).last() == turn_view(before.last()));
    if !turns[turns.len() - 1].user {
        return None;
    }
    let last = turns.pop();
    assert(turns_view(turns@) =~= turns_view(before).drop_last());
    last
}

fn add_user_text(turns: &mut Vec<Turn>, content: &str)
    ensures
        turns_view(final(turns)@) == with_user_text(turns_view(old(turns)@), content@),
{
    match take_user_turn(turns) {
        Some(last) => {
            let existing = match last.content {
                Content::Text(t) => t,
                Content::Blocks(_) => String::new(),
            };
            let joined = text::cat3(existing.as_str(), "\n\n", content);
            add_turn(turns, Turn { user: true, content: Content::Text(joined) });
        },
        None => {
            add_turn(turns, Turn { user: true, content: Content::Text(content.to_owned()) });
        },
    }
}

fn add_result(turns: &mut Vec<Turn>, block: Json)
    ensures
        turns_view(final(turns)@) == with_result(turns_view(old(turns)@), block@),
{
    let ghost view = block@;
    let mut blocks: Vec<Json> = Vec::new();
    match take_user_turn(turns) {
        Some(last) => {
            match last.content {
                Content::Blocks(b) => {
                    blocks = b;
                    let ghost before = blocks@;
                    blocks.push(block);
                    assert(json::items_view(blocks@) =~= json::items_view(before).push(view));
                },
                Content::Text(t) => {
                    if t.as_str().unicode_len() != 0 {
                        blocks.push(make_text_block(t.as_str()));
                        blocks.push(block);
                        assert(json::items_view(blocks@) =~= seq![text_block(t@), view]);
                    } else {
                        blocks.push(block);
                        assert(json::items_view(blocks@) =~= seq![view]);
                    }
                },
            }
        },
        None => {
            blocks.push(block);
            assert(json::items_view(blocks@) =~= seq![view]);
        },
    }
    add_turn(turns, Turn { user: true, content: Content::Blocks(blocks) });
}

fn add_message(turns: &mut Vec<Turn>, msg: &ChatMessage)
    ensures
        turns_view(final(turns)@) == with_message(turns_view(old(turns)@), msg@),
{
    match msg {
        ChatMessage::System { .. } => {},
        ChatMessage::User { content, .. } => add_user_text(turns, content.as_str()),
        ChatMessage::Assistant { content, tool_calls, .. } => {
            let plain = match content {
                Some(s) => s.clone(),
                None => String::new(),
            };
            let held = match tool_calls {
                Some(calls) => {
                    assert(types::calls_view(calls@).len() == calls@.len());
                    if calls.len() == 0 {
                        Content::Text(plain)
                    } else {
                        Content::Blocks(make_assistant_blocks(content, calls))
                    }
                },
                None => Content::Text(plain),
            };
            add_turn(turns, Turn { user: false, content: held });
        },
        ChatMessage::Tool { tool_call_id, content } => add_result(
            turns,
            make_result_block(tool_call_id.as_str(), content.as_str()),
        ),
        ChatMessage::Function { name, arguments } => add_result(
            turns,
            make_result_block(name.as_str(), arguments.as_str()),
        ),
    }
}

fn render_turn(t: Turn) -> (r: Json)
    ensures
        r@ == turn_json(turn_view(t)),
{
    let content = match t.content {
        Content::Text(s) => Json::Text(s),
        Content::Blocks(b) => Json::Array(b),
    };
    Json::Object(
        wire::role_object(
            if t.user {
                "user"
            } else {
                "assistant"
            },
            content,
        ),
    )
}

/// The system prompt and the turns of a conversation.
pub fn convert_messages(messages: &Vec<ChatMessage>) -> (r: (Option<String>, Vec<Json>))
    ensures
        text::opt_text(r.0) == system_prompt(types::messages_view(messages@)),
        json::items_view(r.1@) == turns_json(turns_of(types::messages_view(messages@))),
{
    let mut system: Option<String> = None;
    let mut turns: Vec<Turn> = Vec::new();
    let ghost all = types::messages_view(messages@);
    let mut i: usize = 0;
    assert(all.take(0) =~= Seq::empty());
    assert(turns_view(turns@) =~= Seq::empty());
    while i < messages.len()
        invariant
            i <= messages@.len(),
            all == types::messages_view(messages@),
            text::opt_text(system) == system_prompt(all.take(i as int)),
            turns_view(turns@) == turns_of(all.take(i as int)),
        decreases messages@.len() - i,
    {
        let msg = &messages[i];
        assert(all.take(i + 1).drop_last() =~= all.take(i as int));
        assert(all.take(i + 1).last() == msg@);
        match msg {
            ChatMessage::System { content, .. } => {
                system = Some(
                    match &system {
                        Some(existing) => text::cat3(existing.as_str(), "\n\n", content.as_str()),
                        None => content.clone(),
                    },
                );
            },
            _ => {},
        }
        add_message(&mut turns, msg);
        i = i + 1;
    }
    assert(all.take(i as int) =~= all);
    let ghost finished = turns_view(turns@);
    let ghost raw = turns@;
    let mut out: Vec<Json> = Vec::new();
    for t in it: turns
        invariant
            it.seq() == raw,
            out@.len() == it.index(),
            forall|k: int| 0 <= k < out@.len() ==> (#[trigger] out@[k])@ == turn_json(turn_view(raw[k])),
    {
        out.push(render_turn(t));
    }
    assert(json::items_view(out@) =~= turns_json(finished));
    (system, out)
}

/// The text of a block.
pub open spec fn block_text(b: JsonView) -> Option<Seq<char>> {
    if b.field("type"@).text() == Some("text"@) {
        b.field("text"@).text()
    } else {
        None
    }
}

/// The texts of some blocks, in order.
pub open spec fn block_texts(blocks: Seq<JsonView>) -> Seq<Seq<char>>
    decreases blocks.len(),
{
    if blocks.len() == 0 {
        Seq::empty()
    } else {
        wire::and_then_one(block_texts(blocks.drop_last()), block_text(blocks.last()))
    }
}

/// The call in a block that uses a tool; `written` is its input as JSON text.
pub open spec fn used_tool(b: JsonView, written: Option<Seq<char>>) -> CallView {
    CallView::Custom {
        id: Some(text::text_or(b.field("id"@).text(), "unknown"@)),
        name: text::text_or(b.field("name"@).text(), Seq::empty()),
        arguments: text::text_or(written, "{}"@),
    }
}

/// The tool call of a block.
pub open spec fn block_call(b: JsonView) -> Option<CallView> {
    if b.field("type"@).text() == Some("tool_use"@) {
        Some(used_tool(b, json::json_rendered(b.field("input"@))))
    } else {
        None
    }
}

/// The tool calls of some blocks, in order.
pub open spec fn block_calls(blocks: Seq<JsonView>) -> Seq<CallView>
    decreases blocks.len(),
{
    if blocks.len() == 0 {
        Seq::empty()
    } else {
        wire::and_then_one(block_calls(blocks.drop_last()), block_call(blocks.last()))
    }
}

/// Why the answer ends.
pub open spec fn finish_reason(stop: Option<Seq<char>>) -> Seq<char> {
    if stop == Some("tool_use"@) {
        "tool_calls"@
    } else if stop == Some("max_tokens"@) {
        "length"@
    } else {
        "stop"@
    }
}

/// Where an answer has usage statistics, both counts stand in them and their sum is in range.
pub open spec fn usage_complete(j: JsonView) -> bool {
    let u = j.field("usage"@);
    u is Object ==> {
        &&& u.lookup("input_tokens"@) is Some
        &&& u.lookup("output_tokens"@) is Some
        &&& (u.field("input_tokens"@).count_or_zero() as u32) + (u.field(
            "output_tokens"@,
        ).count_or_zero() as u32) <= u32::MAX
    }
}

/// The usage statistics of an answer.
pub open spec fn usage_of(j: JsonView) -> Option<Usage> {
    let u = j.field("usage"@);
    if u is Object {
        let input = u.field("input_tokens"@).count_or_zero() as u32;
        let output = u.field("output_tokens"@).count_or_zero() as u32;
        Some(
            Usage {
                prompt_tokens: input,
                completion_tokens: output,
                total_tokens: (input + output) as u32,
            },
        )
    } else {
        None
    }
}

/// The response in an answer.
pub open spec fn parsed_response(j: JsonView, model: Seq<char>) -> ResponseView {
    let blocks = j.field("content"@).items_or_none();
    ResponseView {
        id: text::text_or(j.field("id"@).text(), "unknown"@),
        object: "chat.completion"@,
        created: j.field("created"@).count_or_zero(),
        model: text::text_or(j.field("model"@).text(), model),
        choices: seq![
            ChoiceView {
                index: 0,
                message: wire::assembled(block_texts(blocks), block_calls(blocks)),
                finish_reason: Some(finish_reason(j.field("stop_reason"@).text())),
                logprobs: None,
            },
        ],
        usage: usage_of(j),
        system_fingerprint: None,
    }
}

/// Whether the usage statistics of an answer are complete and their sum is in range.
pub fn check_usage(j: &Json) -> (r: bool)
    ensures
        r == usage_complete(j@),
{
    let u = j.at("usage");
    match u {
        Json::Object(_) => {
            let input: u32 = u.at("input_tokens").count_or_zero() as u32;
            let output: u32 = u.at("output_tokens").count_or_zero() as u32;
            u.get("input_tokens").is_some() && u.get("output_tokens").is_some() && input as u64
                + output as u64 <= u32::MAX as u64
        },
        _ => true,
    }
}

fn read_usage(j: &Json) -> (r: Option<Usage>)
    requires
        usage_complete(j@),
    ensures
        r == usage_of(j@),
{
    let u = j.at("usage");
    match u {
        Json::Object(_) => {
            let input: u32 = u.at("input_tokens").count_or_zero() as u32;
            let output: u32 = u.at("output_tokens").count_or_zero() as u32;
            Some(
                Usage {
                    prompt_tokens: input,
                    completion_tokens: output,
                    total_tokens: input + output,
                },
            )
        },
        _ => None,
    }
}

/// The call in a block that uses a tool, given its input as JSON text.
pub fn read_used_tool(b: &Json, written: Option<String>) -> (r: ToolCall)
    ensures
        r@ == used_tool(b@, text::opt_text(written)),
{
    proof {
        reveal_strlit("");
        assert(""@ =~= Seq::<char>::empty());
    }
    let arguments = match written {
        Some(s) => s,
        None => "{}".to_owned(),
    };
    types::custom_call(
        Some(b.at("id").text_or("unknown").to_owned()),
        b.at("name").text_or("").to_owned(),
        arguments,
    )
}

fn read_blocks(blocks: &Vec<Json>) -> (r: (Vec<String>, Vec<ToolCall>))
    ensures
        text::texts(r.0@) == block_texts(json::items_view(blocks@)),
        types::calls_view(r.1@) == block_calls(json::items_view(blocks@)),
{
    let mut texts: Vec<String> = Vec::new();
    let mut calls: Vec<ToolCall> = Vec::new();
    let ghost all = json::items_view(blocks@);
    let mut i: usize = 0;
    assert(all.take(0) =~= Seq::empty());
    assert(text::texts(texts@) =~= Seq::empty());
    assert(types::calls_view(calls@) =~= Seq::empty());
    while i < blocks.len()
        invariant
            i <= blocks@.len(),
            all == json::items_view(blocks@),
            text::texts(texts@) == block_texts(all.take(i as int)),
            types::calls_view(calls@) == block_calls(all.take(i as int)),
        decreases blocks@.len() - i,
    {
        let b = &blocks[i];
        assert(all.take(i + 1).drop_last() =~= all.take(i as int));
        assert(all.take(i + 1).last() == b@);
        let ghost texts_before = texts@;
        let ghost calls_before = calls@;
        proof {
            reveal_strlit("text");
            reveal_strlit("tool_use");
            assert("text"@.len() != "tool_use"@.len());
        }
        match b.at("type").as_text() {
            Some(kind) => {
                if text::same(kind, "text") {
                    match b.at("text").as_text() {
                        Some(s) => {
                            texts.push(s.to_owned());
                            assert(text::texts(texts@) =~= text::texts(texts_before).push(s@));
                        },
                        None => {},
                    }
                } else if text::same(kind, "tool_use") {
                    let call = read_used_tool(b, json::render(b.at("input")));
                    calls.push(call);
                    assert(types::calls_view(calls@) =~= types::calls_view(calls_before).push(
                        call@,
                    ));
                }
            },
            None => {},
        }
        i = i + 1;
    }
    assert(all.take(i as int) =~= all);
    (texts, calls)
}

/// The response in an answer.
pub fn convert_response(j: &Json, model: &str) -> (r: ChatCompletionResponse)
    requires
        usage_complete(j@),
    ensures
        r@ == parsed_response(j@, model@),
{
    let ghost all = j@.field("content"@).items_or_none();
    let none: Vec<Json> = Vec::new();
    assert(json::items_view(none@) =~= Seq::empty());
    let blocks = match j.at("content").as_items() {
        Some(items) => items,
        None => {
            assert(all =~= Seq::empty());
            &none
        },
    };
    let read = read_blocks(blocks);
    let message = wire::assemble(&read.0, read.1);
    let reason = match j.at("stop_reason").as_text() {
        Some(s) => if text::same(s, "tool_use") {
            "tool_calls"
        } else if text::same(s, "max_tokens") {
            "length"
        } else {
            "stop"
        },
        None => "stop",
    };
    let mut choices: Vec<Choice> = Vec::new();
    choices.push(
        Choice { index: 0, message, finish_reason: Some(reason.to_owned()), logprobs: None },
    );
    let r = ChatCompletionResponse {
        id: j.at("id").text_or("unknown").to_owned(),
        object: "chat.completion".to_owned(),
        created: j.at("created").count_or_zero(),
        model: j.at("model").text_or(model).to_owned(),
        choices,
        usage: read_usage(j),
        system_fingerprint: None,
    };
    assert(r@.choices =~= parsed_response(j@, model@).choices);
    r
}

/// What all bodies have in common: the model, the turns, the limit of tokens, the system prompt,
/// the temperature and the top-p value.
pub open spec fn common_body(request: ChatCompletionRequest, model: Seq<char>, limit: u32) -> Map<
    Seq<char>,
    JsonView,
> {
    let messages = types::messages_view(request.messages@);
    json::with_optional(
        json::with_optional(
            json::with_optional(
                Map::empty().insert("model"@, JsonView::Text(model)).insert(
                    "messages"@,
                    JsonView::Array(turns_json(turns_of(messages))),
                ).insert(
                    "max_tokens"@,
                    json::json_count(
                        (match request.max_tokens {
                            Some(n) => n,
                            None => limit,
                        }) as u64,
                    ),
                ),
                "system"@,
                wire::opt_text_json(system_prompt(messages)),
            ),
            "temperature"@,
            json::opt_real_json(request.temperature),
        ),
        "top_p"@,
        json::opt_real_json(request.top_p),
    )
}

/// The body of a request for a completion.
pub open spec fn chat_body(request: ChatCompletionRequest, model: Seq<char>) -> JsonView {
    JsonView::Object(
        json::with_optional(
            common_body(request, model, 1024),
            "stop_sequences"@,
            wire::stops_json(text::texts(request.stop@)),
        ),
    )
}

/// The body of a request for a streamed completion.
pub open spec fn stream_body(request: ChatCompletionRequest, model: Seq<char>) -> JsonView {
    JsonView::Object(common_body(request, model, 1024).insert("stream"@, JsonView::Bool(true)))
}

/// The parameters of a function that states none.
pub open spec fn empty_schema() -> JsonView {
    JsonView::Object(
        Map::empty().insert("type"@, JsonView::Text("object"@)).insert(
            "properties"@,
            JsonView::Object(Map::empty()),
        ),
    )
}

/// A function as a tool.
pub open spec fn tool_json(f: FunctionDefinition) -> JsonView {
    JsonView::Object(
        Map::empty().insert("name"@, JsonView::Text(f.name@)).insert(
            "description"@,
            match wire::opt_text_json(text::opt_text(f.description)) {
                Some(d) => d,
                None => JsonView::Null,
            },
        ).insert(
            "input_schema"@,
            match json::json_opt(f.parameters) {
                Some(p) => p,
                None => empty_schema(),
            },
        ),
    )
}

/// The body of a request for a completion with functions.
pub open spec fn functions_body(
    request: ChatCompletionRequest,
    model: Seq<char>,
    functions: Seq<FunctionDefinition>,
) -> JsonView {
    JsonView::Object(
        json::with_optional(
            common_body(request, model, 4096).insert(
                "tools"@,
                JsonView::Array(functions.map_values(|f: FunctionDefinition| tool_json(f))),
            ).insert(
                "tool_choice"@,
                JsonView::Object(Map::empty().insert("type"@, JsonView::Text("auto"@))),
            ),
            "stop_sequences"@,
            wire::stops_json(text::texts(request.stop@)),
        ),
    )
}

/// What is said where neither the request nor the configuration names a model.
pub open spec fn no_model_message() -> Seq<char> {
    "No model configured for AnthropicProvider — set default_model in AnthropicConfig or pass a model in the request"@
}

/// The prices of input and output tokens that estimates go by.
pub open spec fn estimate_prices(model: Seq<char>) -> (u64, u64) {
    if text::occurs(model, "opus"@) {
        (15_000_000, 75_000_000)
    } else if text::occurs(model, "sonnet"@) {
        (3_000_000, 15_000_000)
    } else if text::occurs(model, "haiku"@) {
        (250_000, 1_250_000)
    } else {
        (3_000_000, 15_000_000)
    }
}

/// The models that are known to be supported, of the family with this name.
pub open spec fn supported(family: Seq<char>) -> Seq<Seq<char>> {
    seq![
        family + "-3-5-sonnet-20241022"@,
        family + "-3-5-sonnet"@,
        family + "-3-opus-20240229"@,
        family + "-3-haiku-20240307"@,
    ]
}

/// The table of models.
pub open spec fn table() -> Seq<FamilyEntry> {
    seq![
        FamilyEntry {
            id_end: "-3-5-sonnet-20241022",
            name_end: " 3.5 Sonnet",
            provider: "anthropic",
            description_start: "Latest ",
            description_end: " model with improved reasoning and code skills",
            context_window: 200000,
            max_output_tokens: 4096,
            vision: true,
            caching: true,
            prompt_price: 3_000_000,
            completion_price: 15_000_000,
            created: 1724076800,
        },
        FamilyEntry {
            id_end: "-3-opus-20240229",
            name_end: " 3 Opus",
            provider: "anthropic",
            description_start: "Most capable ",
            description_end: " model for complex reasoning tasks",
            context_window: 200000,
            max_output_tokens: 4096,
            vision: true,
            caching: true,
            prompt_price: 15_000_000,
            completion_price: 75_000_000,
            created: 1709251200,
        },
        FamilyEntry {
            id_end: "-3-haiku-20240307",
            name_end: " 3 Haiku",
            provider: "anthropic",
            description_start: "Fast and compact ",
            description_end: " model for simple tasks",
            context_window: 200000,
            max_output_tokens: 4096,
            vision: true,
            caching: false,
            prompt_price: 800_000,
            completion_price: 4_000_000,
            created: 1709251200,
        },
    ]
}

fn make_tool(f: &FunctionDefinition) -> (r: Json)
    ensures
        r@ == tool_json(*f),
{
    let description = match &f.description {
        Some(d) => Json::Text(d.clone()),
        None => Json::Null,
    };
    let schema = match &f.parameters {
        Some(p) => p.duplicate(),
        None => {
            let mut o = JsonObject::new();
            o.set("type", Json::of_text("object"));
            o.set("properties", Json::Object(JsonObject::new()));
            Json::Object(o)
        },
    };
    let mut o = JsonObject::new();
    o.set("name", Json::Text(f.name.clone()));
    o.set("description", description);
    o.set("input_schema", schema);
    Json::Object(o)
}

fn make_tools(functions: &Vec<FunctionDefinition>) -> (r: Json)
    ensures
        r@ == JsonView::Array(functions@.map_values(|f: FunctionDefinition| tool_json(f))),
{
    let mut items: Vec<Json> = Vec::new();
    let mut i: usize = 0;
    while i < functions.len()
        invariant
            i <= functions@.len(),
            items@.len() == i,
            forall|j: int| 0 <= j < i ==> (#[trigger] items@[j])@ == tool_json(functions@[j]),
        decreases functions@.len() - i,
    {
        items.push(make_tool(&functions[i]));
        i = i + 1;
    }
    assert(json::items_view(items@) =~= functions@.map_values(
        |f: FunctionDefinition| tool_json(f),
    ));
    Json::Array(items)
}

fn make_common(request: &ChatCompletionRequest, model: &str, limit: u32) -> (r: JsonObject)
    ensures
        r@ == common_body(*request, model@, limit),
{
    let converted = convert_messages(&request.messages);
    let max_tokens: u32 = match request.max_tokens {
        Some(n) => n,
        None => limit,
    };
    let mut body = JsonObject::new();
    body.set("model", Json::of_text(model));
    body.set("messages", Json::Array(converted.1));
    body.set("max_tokens", Json::of_count(max_tokens as u64));
    body.set_optional("system", wire::text_of(&converted.0));
    body.set_optional("temperature", wire::real_of(&request.temperature));
    body.set_optional("top_p", wire::real_of(&request.top_p));
    body
}

impl AnthropicProvider {
    /// The configuration.
    pub closed spec fn settings(&self) -> AnthropicConfig {
        self.config
    }

    /// The family of models.
    pub closed spec fn models(&self) -> ModelFamily {
        self.family
    }

    /// The base URL of the API.
    pub open spec fn base_url(&self) -> Seq<char> {
        text::text_or(text::opt_text(self.settings().base_url), "https://api.anthropic.com/v1"@)
    }

    /// The model that a request is for.
    pub open spec fn model_for(&self, model: Seq<char>) -> Result<Seq<char>, ErrorView> {
        wire::resolved(model, text::opt_text(self.settings().default_model), no_model_message())
    }

    /// The request that posts a body to the messages API.
    pub open spec fn posted(&self, body: JsonView) -> HttpRequestView {
        wire::posting(
            self.base_url() + "/messages"@,
            seq![
                ("x-api-key"@, self.settings().api_key@),
                ("anthropic-version"@, "2023-06-01"@),
                http::json_header(),
            ],
            body,
        )
    }

    /// A provider with this key and the default configuration.
    pub fn new(api_key: &str, family: ModelFamily) -> (r: Result<AnthropicProvider, LLMError>)
        ensures
            r matches Ok(p) && p.models() == family && p.settings().api_key@ == api_key@ && p.settings().default_model
                is None && p.settings().base_url is None,
    {
        let mut config = AnthropicConfig::default();
        config.api_key = api_key.to_owned();
        Ok(AnthropicProvider { config, family })
    }

    /// A provider with this configuration, which has to hold a key.
    pub fn with_config(config: AnthropicConfig, family: ModelFamily) -> (r: Result<
        AnthropicProvider,
        LLMError,
    >)
        ensures
            match r {
                Ok(p) => config.api_key@.len() != 0 && p.settings() == config && p.models() == family,
                Err(e) => config.api_key@.len() == 0 && e@ == (ErrorView::ConfigurationError {
                    message: "Anthropic API key is required"@,
                    field: Some("api_key"@),
                }),
            },
    {
        if config.api_key.as_str().unicode_len() == 0 {
            return Err(error::configuration_error("Anthropic API key is required", "api_key"));
        }
        Ok(AnthropicProvider { config, family })
    }

    /// A provider with this key for a compatible API at this base URL.
    pub fn with_endpoint(api_key: &str, base_url: &str, family: ModelFamily) -> (r: Result<
        AnthropicProvider,
        LLMError,
    >)
        ensures
            r matches Ok(p) && p.models() == family && p.settings().api_key@ == api_key@ && p.settings().default_model
                is None && text::opt_text(p.settings().base_url) == Some(base_url@),
    {
        let mut config = AnthropicConfig::default();
        config.api_key = api_key.to_owned();
        config.base_url = Some(base_url.to_owned());
        Ok(AnthropicProvider { config, family })
    }

    fn get_base_url(&self) -> (r: &str)
        ensures
            r@ == self.base_url(),
    {
        match &self.config.base_url {
            Some(u) => u.as_str(),
            None => "https://api.anthropic.com/v1",
        }
    }

    fn resolve(&self, model: &String) -> (r: Result<String, LLMError>)
        ensures
            http::seen(r) == self.model_for(model@),
    {
        wire::resolve_model(
            model,
            &self.config.default_model,
            "No model configured for AnthropicProvider — set default_model in AnthropicConfig or pass a model in the request",
        )
    }

    fn messages_post(&self, body: Json) -> (r: HttpRequest)
        ensures
            r@ == self.posted(body@),
    {
        let mut headers: Vec<(String, String)> = Vec::new();
        headers.push(http::header("x-api-key", self.config.api_key.as_str()));
        headers.push(http::header("anthropic-version", "2023-06-01"));
        headers.push(http::header("Content-Type", "application/json"));
        assert(http::headers_view(headers@) =~= seq![
            ("x-api-key"@, self.settings().api_key@),
            ("anthropic-version"@, "2023-06-01"@),
            http::json_header(),
        ]);
        wire::post(text::cat(self.get_base_url(), "/messages"), headers, body)
    }

    /// The request for a completion, and the model that it is for.
    pub fn chat_completion_request(&self, request: &ChatCompletionRequest) -> (r: Result<
        (HttpRequest, String),
        LLMError,
    >)
        ensures
            match self.model_for(request.model@) {
                Ok(model) => r matches Ok(p) && p.0@ == self.posted(chat_body(*request, model))
                    && p.1@ == model,
                Err(e) => r matches Err(x) && x@ == e,
            },
    {
        let model = match self.resolve(&request.model) {
            Ok(m) => m,
            Err(e) => return Err(e),
        };
        let mut body = make_common(request, model.as_str(), 1024);
        body.set_optional("stop_sequences", wire::stops_of(&request.stop));
        Ok((self.messages_post(Json::Object(body)), model))
    }

    /// The request for a completion with functions, and the model that it is for.
    pub fn chat_completion_with_functions_request(
        &self,
        request: &ChatCompletionRequest,
        functions: &Vec<FunctionDefinition>,
    ) -> (r: Result<(HttpRequest, String), LLMError>)
        ensures
            match self.model_for(request.model@) {
                Ok(model) => r matches Ok(p) && p.0@ == self.posted(
                    functions_body(*request, model, functions@),
                ) && p.1@ == model,
                Err(e) => r matches Err(x) && x@ == e,
            },
    {
        let model = match self.resolve(&request.model) {
            Ok(m) => m,
            Err(e) => return Err(e),
        };
        let mut choice = JsonObject::new();
        choice.set("type", Json::of_text("auto"));
        let mut body = make_common(request, model.as_str(), 4096);
        body.set("tools", make_tools(functions));
        body.set("tool_choice", Json::Object(choice));
        body.set_optional("stop_sequences", wire::stops_of(&request.stop));
        Ok((self.messages_post(Json::Object(body)), model))
    }

    /// The response that comes of a request for a completion, with or without functions.
    pub fn chat_completion_response(&self, model: &str, outcome: HttpOutcome) -> (r: Result<
        ChatCompletionResponse,
        LLMError,
    >)
        requires
            outcome@ matches OutcomeView::Answered { json } ==> usage_complete(json),
        ensures
            http::seen(r) == (match http::answer(
                outcome@,
                "Anthropic API error: "@,
                "Failed to parse Anthropic response"@,
            ) {
                Ok(j) => Ok(parsed_response(j, model@)),
                Err(e) => Err(e),
            }),
    {
        match http::read_answer(
            outcome,
            "Anthropic API error: ",
            "Failed to parse Anthropic response",
        ) {
            Ok(j) => Ok(convert_response(&j, model)),
            Err(e) => Err(e),
        }
    }

    /// The request for a streamed completion, and the stream that its answer feeds.
    pub fn chat_completion_stream_request(&self, request: &ChatCompletionRequest) -> (r: Result<
        (HttpRequest, ChunkStream),
        LLMError,
    >)
        ensures
            match self.model_for(request.model@) {
                Ok(model) => r matches Ok(p) && p.0@ == self.posted(stream_body(*request, model))
                    && p.1.dialect() == Dialect::Anthropic && p.1.model() == model && p.1.buffer()
                    == Seq::<char>::empty() && p.1.count() == 0,
                Err(e) => r matches Err(x) && x@ == e,
            },
    {
        let model = match self.resolve(&request.model) {
            Ok(m) => m,
            Err(e) => return Err(e),
        };
        let mut body = make_common(request, model.as_str(), 1024);
        body.set("stream", Json::Bool(true));
        Ok(
            (
                self.messages_post(Json::Object(body)),
                ChunkStream::new(Dialect::Anthropic, model.as_str()),
            ),
        )
    }

    /// The error of a streamed completion that did not start.
    pub fn chat_completion_stream_error(&self, failure: HttpFailure) -> (r: LLMError)
        ensures
            r@ == http::failure_error(failure@, "Anthropic API error: "@),
    {
        http::error_of_failure(failure, "Anthropic API error: ")
    }

    /// The models with full information.
    pub fn list_models(&self) -> (r: Result<Vec<FullModelInfo>, LLMError>)
        ensures
            r matches Ok(models) && types::models_view(models@) == catalogue::family_models(self.models(), table()),
    {
        let entries: Vec<FamilyEntry> = vec![
            FamilyEntry {
                id_end: "-3-5-sonnet-20241022",
                name_end: " 3.5 Sonnet",
                provider: "anthropic",
                description_start: "Latest ",
                description_end: " model with improved reasoning and code skills",
                context_window: 200000,
                max_output_tokens: 4096,
                vision: true,
                caching: true,
                prompt_price: 3_000_000,
                completion_price: 15_000_000,
                created: 1724076800,
            },
            FamilyEntry {
                id_end: "-3-opus-20240229",
                name_end: " 3 Opus",
                provider: "anthropic",
                description_start: "Most capable ",
                description_end: " model for complex reasoning tasks",
                context_window: 200000,
                max_output_tokens: 4096,
                vision: true,
                caching: true,
                prompt_price: 15_000_000,
                completion_price: 75_000_000,
                created: 1709251200,
            },
            FamilyEntry {
                id_end: "-3-haiku-20240307",
                name_end: " 3 Haiku",
                provider: "anthropic",
                description_start: "Fast and compact ",
                description_end: " model for simple tasks",
                context_window: 200000,
                max_output_tokens: 4096,
                vision: true,
                caching: false,
                prompt_price: 800_000,
                completion_price: 4_000_000,
                created: 1709251200,
            },
        ];
        assert(entries@ =~= table());
        Ok(catalogue::models_of_family(&self.family, &entries))
    }

    /// The model with this identifier.
    pub fn get_full_model_info(&self, model_id: &str) -> (r: Result<
        Option<FullModelInfo>,
        LLMError,
    >)
        ensures
            r matches Ok(found) && provider::is_first_with_id(
                catalogue::family_models(self.models(), table()),
                model_id@,
                provider::opt_model(found),
            ),
    {
        match self.list_models() {
            Ok(models) => Ok(provider::get_full_model_info(models, model_id)),
            Err(e) => Err(e),
        }
    }
}

impl LLMProvider for AnthropicProvider {
    open spec fn id(&self) -> Seq<char> {
        "anthropic"@
    }

    open spec fn catalogue(&self) -> Seq<Seq<char>> {
        supported(self.models().id@)
    }

    open spec fn calls_functions(&self, model: Seq<char>) -> bool {
        text::occurs(model, self.models().id@)
    }

    open spec fn prices(&self, model: Seq<char>) -> Option<ModelPricing> {
        None
    }

    open spec fn abilities(&self, model: Seq<char>) -> Option<CapabilitiesView> {
        Some(types::no_capabilities())
    }

    open spec fn limits(&self) -> Result<RateLimitStatus, ErrorView> {
        Ok(rate_limiter::unknown_status())
    }

    open spec fn cost(&self, request: ChatCompletionRequest) -> Result<EstimateView, ErrorView> {
        match self.model_for(request.model@) {
            Ok(model) => Ok(
                wire::estimated(
                    request,
                    model,
                    estimate_prices(model).0,
                    estimate_prices(model).1,
                    "anthropic"@,
                ),
            ),
            Err(e) => Err(e),
        }
    }

    fn name(&self) -> (r: &str) {
        "anthropic"
    }

    fn supported_models(&self) -> (r: Vec<String>) {
        let family = self.family.id.as_str();
        let mut out: Vec<String> = Vec::new();
        out.push(text::cat(family, "-3-5-sonnet-20241022"));
        out.push(text::cat(family, "-3-5-sonnet"));
        out.push(text::cat(family, "-3-opus-20240229"));
        out.push(text::cat(family, "-3-haiku-20240307"));
        assert(text::texts(out@) =~= supported(self.models().id@));
        out
    }

    fn get_model_pricing(&self, model: &str) -> (r: Option<ModelPricing>) {
        None
    }

    fn get_model_capabilities(&self, model: &str) -> (r: Option<ModelCapabilities>) {
        Some(ModelCapabilities::default())
    }

    fn supports_function_calling(&self, model: &str) -> (r: bool) {
        text::contains(model, self.family.id.as_str())
    }

    fn rate_limit_status(&self) -> (r: Result<RateLimitStatus, LLMError>) {
        Ok(RateLimitStatus::unknown())
    }

    fn estimate_cost(&self, request: &ChatCompletionRequest) -> (r: Result<CostEstimate, LLMError>) {
        let resolved = match self.resolve(&request.model) {
            Ok(m) => m,
            Err(e) => return Err(e),
        };
        let model = resolved.as_str();
        let prices: (u64, u64) = if text::contains(model, "opus") {
            (15_000_000, 75_000_000)
        } else if text::contains(model, "sonnet") {
            (3_000_000, 15_000_000)
        } else if text::contains(model, "haiku") {
            (250_000, 1_250_000)
        } else {
            (3_000_000, 15_000_000)
        };
        Ok(wire::estimate(request, model, prices.0, prices.1, "anthropic"))
    }
}

/// Every model of the table is known to be supported.
pub proof fn law_listed_models_are_supported(family: Seq<char>)
    ensures
        forall|i: int|
            0 <= i < table().len() ==> supported(family).contains(
                family + (#[trigger] table()[i]).id_end@,
            ),
{
    let s = supported(family);
    assert(s[0] == family + "-3-5-sonnet-20241022"@ && s[2] == family + "-3-opus-20240229"@ && s[3]
        == family + "-3-haiku-20240307"@);
}

/// No two turns of the user follow each other.
pub proof fn law_user_turns_are_merged(messages: Seq<MessageView>)
    ensures
        forall|i: int|
            0 <= i < turns_of(messages).len() - 1 ==> !((#[trigger] turns_of(messages)[i]).user
                && turns_of(messages)[i + 1].user),
    decreases messages.len(),
{
    if messages.len() > 0 {
        law_user_turns_are_merged(messages.drop_last());
        let before = turns_of(messages.drop_last());
        let after = turns_of(messages);
        assert forall|i: int| 0 <= i < after.len() - 1 implies !((#[trigger] after[i]).user
            && after[i + 1].user) by {
            if i + 1 < before.len() {
                assert(!(before[i].user && before[i + 1].user));
            }
        }
    }
}

/// A turn of the assistant comes of an assistant message, one for one; everything else that is
/// said makes up the user's turns.
pub proof fn law_assistant_turns(messages: Seq<MessageView>)
    ensures
        turns_of(messages).filter(|t: TurnView| !t.user).len() == messages.filter(
            |m: MessageView| m is Assistant,
        ).len(),
    decreases messages.len(),
{
    reveal(Seq::filter);
    let not_user = |t: TurnView| !t.user;
    let by_assistant = |m: MessageView| m is Assistant;
    if messages.len() > 0 {
        law_assistant_turns(messages.drop_last());
        let before = turns_of(messages.drop_last());
        let after = turns_of(messages);
        if messages.last() is System {
        } else if user_last(before) && !(messages.last() is Assistant) {
            assert(after.drop_last() =~= before.drop_last());
        } else {
            assert(after.drop_last() =~= before);
        }
    }
}

proof fn lemma_turn_json(t: TurnView)
    ensures
        turn_json(t).holds("role"@, JsonView::Text("user"@)) <==> t.user,
        turn_json(t).holds("role"@, JsonView::Text("assistant"@)) <==> !t.user,
        t.content matches ContentView::Text(s) ==> turn_json(t).holds(
            "content"@,
            JsonView::Text(s),
        ),
        t.content matches ContentView::Blocks(b) ==> turn_json(t).holds(
            "content"@,
            JsonView::Array(b),
        ),
{
    reveal_strlit("role");
    reveal_strlit("content");
    reveal_strlit("user");
    reveal_strlit("assistant");
    assert("role"@[0] != "user"@[0]);
}

proof fn lemma_turns_json_push(turns: Seq<TurnView>, t: TurnView)
    ensures
        turns_json(turns.push(t)) == turns_json(turns).push(turn_json(t)),
        turns.len() > 0 ==> turns_json(turns.drop_last()) == turns_json(turns).drop_last()
            && turns_json(turns).last() == turn_json(turns.last()),
        turns_json(turns).len() == turns.len(),
{
    assert(turns_json(turns.push(t)) =~= turns_json(turns).push(turn_json(t)));
    if turns.len() > 0 {
        assert(turns_json(turns.drop_last()) =~= turns_json(turns).drop_last());
    }
}

/// The result of a tool or of a function stands in the sent turns as the last block of the last
/// turn, which is the user's. Where the turn before it was the user's, the result joins that turn
/// and what stood there stays in front of it; otherwise the turn is new. All other turns stay.
pub proof fn law_results_are_sent(
    messages: Seq<MessageView>,
    m: MessageView,
    id: Seq<char>,
    content: Seq<char>,
)
    requires
        match m {
            MessageView::Tool { tool_call_id, content: c } => id == tool_call_id && content == c,
            MessageView::Function { name, arguments } => id == name && content == arguments,
            _ => false,
        },
    ensures
        ({
            let before = turns_json(turns_of(messages));
            let after = turns_json(turns_of(messages.push(m)));
            let block = JsonView::Object(
                map![
                    "type"@ => JsonView::Text("tool_result"@),
                    "tool_use_id"@ => JsonView::Text(id),
                    "content"@ => JsonView::Text(content),
                ],
            );
            let joins = before.len() > 0 && before.last().holds("role"@, JsonView::Text("user"@));
            &&& after.len() > 0
            &&& after.last().holds("role"@, JsonView::Text("user"@))
            &&& exists|blocks: Seq<JsonView>| #[trigger]
                after.last().holds("content"@, JsonView::Array(blocks)) && blocks.len() > 0
                    && blocks.last() == block && if joins {
                    &&& after.drop_last() == before.drop_last()
                    &&& forall|earlier: Seq<JsonView>|
                        before.last().holds("content"@, JsonView::Array(earlier))
                            ==> blocks.drop_last() == earlier
                    &&& before.last().holds("content"@, JsonView::Text(Seq::empty()))
                        ==> blocks.len() == 1
                    &&& forall|t: Seq<char>|
                        t.len() > 0 && before.last().holds("content"@, JsonView::Text(t))
                            ==> blocks.drop_last() == seq![
                            JsonView::Object(
                                map!["type"@ => JsonView::Text("text"@), "text"@ =>
                                    JsonView::Text(t)],
                            ),
                        ]
                } else {
                    &&& after.drop_last() == before
                    &&& blocks.len() == 1
                }
        }),
{
    let turns = turns_of(messages);
    let before = turns_json(turns);
    let after = turns_json(turns_of(messages.push(m)));
    assert(messages.push(m).drop_last() =~= messages);
    let block = result_block(id, content);
    assert(block == JsonView::Object(
        map![
            "type"@ => JsonView::Text("tool_result"@),
            "tool_use_id"@ => JsonView::Text(id),
            "content"@ => JsonView::Text(content),
        ],
    ));
    if turns.len() > 0 {
        lemma_turn_json(turns.last());
    }
    lemma_turns_json_push(turns, turns.last());
    assert(turns_of(messages.push(m)) == with_result(turns, block));
    let grown = with_result(turns, block);
    let t = grown.last();
    lemma_turn_json(t);
    let blocks = t.content->Blocks_0;
    if user_last(turns) {
        lemma_turns_json_push(turns.drop_last(), t);
        assert(grown == turns.drop_last().push(t));
        assert(after.drop_last() =~= before.drop_last());
        match turns.last().content {
            ContentView::Blocks(b) => {
                assert(blocks.drop_last() =~= b);
            },
            ContentView::Text(s) => {
                if s.len() > 0 {
                    assert(blocks.drop_last() =~= seq![text_block(s)]);
                } else {
                    assert(s =~= Seq::empty());
                }
            },
        }
    } else {
        lemma_turns_json_push(turns, t);
        assert(grown == turns.push(t));
        assert(after.drop_last() =~= before);
    }
    assert(after.last().holds("content"@, JsonView::Array(blocks)));
}

/// A text of the user ends the last turn, which is the user's and holds text. Where the turn
/// before it was the user's, a blank line and the text follow what that turn said; otherwise the
/// turn is new and holds the text alone. All other turns stay.
pub proof fn law_user_texts_are_sent(
    messages: Seq<MessageView>,
    content: Seq<char>,
    name: Option<Seq<char>>,
)
    ensures
        ({
            let before = turns_json(turns_of(messages));
            let after = turns_json(
                turns_of(messages.push(MessageView::User { content, name })),
            );
            let joins = before.len() > 0 && before.last().holds("role"@, JsonView::Text("user"@));
            &&& after.len() > 0
            &&& after.last().holds("role"@, JsonView::Text("user"@))
            &&& !joins ==> after.drop_last() == before && after.last().holds(
                "content"@,
                JsonView::Text(content),
            )
            &&& joins ==> after.drop_last() == before.drop_last()
            &&& joins ==> forall|t: Seq<char>|
                before.last().holds("content"@, JsonView::Text(t)) ==> after.last().holds(
                    "content"@,
                    JsonView::Text(t + "\n\n"@ + content),
                )
            &&& joins ==> forall|b: Seq<JsonView>|
                before.last().holds("content"@, JsonView::Array(b)) ==> after.last().holds(
                    "content"@,
                    JsonView::Text("\n\n"@ + content),
                )
        }),
{
    let m = MessageView::User { content, name };
    let turns = turns_of(messages);
    assert(messages.push(m).drop_last() =~= messages);
    if turns.len() > 0 {
        lemma_turn_json(turns.last());
    }
    lemma_turns_json_push(turns, turns.last());
    let grown = turns_of(messages.push(m));
    assert(grown == with_user_text(turns, content));
    lemma_turn_json(grown.last());
    if user_last(turns) {
        lemma_turns_json_push(turns.drop_last(), grown.last());
        assert(grown == turns.drop_last().push(grown.last()));
        assert(turns_json(grown).drop_last() =~= turns_json(turns).drop_last());
        assert(Seq::<char>::empty() + "\n\n"@ + content =~= "\n\n"@ + content);
    } else {
        lemma_turns_json_push(turns, grown.last());
        assert(turns_json(grown).drop_last() =~= turns_json(turns));
    }
}

/// A message of the assistant without calls is one more turn, the assistant's, which holds its
/// text, empty where it has none.
pub proof fn law_assistant_texts_are_sent(
    messages: Seq<MessageView>,
    content: Option<Seq<char>>,
    tool_calls: Option<Seq<CallView>>,
    name: Option<Seq<char>>,
)
    requires
        tool_calls matches Some(c) ==> c.len() == 0,
    ensures
        ({
            let before = turns_json(turns_of(messages));
            let after = turns_json(
                turns_of(messages.push(MessageView::Assistant { content, tool_calls, name })),
            );
            &&& after.len() == before.len() + 1
            &&& after.drop_last() == before
            &&& after.last().holds("role"@, JsonView::Text("assistant"@))
            &&& content matches Some(c) ==> after.last().holds("content"@, JsonView::Text(c))
            &&& content is None ==> after.last().holds("content"@, JsonView::Text(Seq::empty()))
        }),
{
    let m = MessageView::Assistant { content, tool_calls, name };
    let turns = turns_of(messages);
    assert(messages.push(m).drop_last() =~= messages);
    let grown = turns_of(messages.push(m));
    lemma_turn_json(grown.last());
    lemma_turns_json_push(turns, grown.last());
    assert(turns_json(grown).drop_last() =~= turns_json(turns));
}

/// The block is the use of the tool that is called, with the arguments as JSON.
pub open spec fn says_call(block: JsonView, call: CallView) -> bool {
    match call {
        CallView::Custom { id, name, arguments } => {
            &&& block.holds("type"@, JsonView::Text("tool_use"@))
            &&& block.holds("name"@, JsonView::Text(name))
            &&& id matches Some(s) ==> block.holds("id"@, JsonView::Text(s))
            &&& id is None ==> block.holds(
                "id"@,
                JsonView::Text("unknown"@),
            )
            &&& json::json_parsed(arguments) matches Some(j)
                ==> block.holds("input"@, j)
            &&& json::json_parsed(arguments) is None ==> block.holds(
                "input"@,
                JsonView::Object(Map::empty()),
            )
        },
        CallView::Code { code, .. } => {
            &&& block.holds("type"@, JsonView::Text("tool_use"@))
            &&& block.holds("name"@, JsonView::Text("code_interpreter"@))
            &&& block.holds("id"@, JsonView::Text("code_interpreter"@))
            &&& block.holds(
                "input"@,
                JsonView::Object(map!["code"@ => JsonView::Text(code)]),
            )
        },
        CallView::Retrieval { query, .. } => {
            &&& block.holds("type"@, JsonView::Text("tool_use"@))
            &&& block.holds("name"@, JsonView::Text("retrieval"@))
            &&& block.holds("id"@, JsonView::Text("retrieval"@))
            &&& block.holds(
                "input"@,
                JsonView::Object(map!["query"@ => JsonView::Text(query)]),
            )
        },
    }
}

proof fn lemma_call_block(call: CallView)
    ensures
        says_call(call_block(call), call),
{
    reveal_strlit("type");
    reveal_strlit("name");
    reveal_strlit("id");
    reveal_strlit("input");
    assert("type"@.len() == 4);
    assert("name"@.len() == 4);
    assert("id"@.len() == 2);
    assert("input"@.len() == 5);
    assert("type"@[0] != "name"@[0]);
    let block = call_block(call);
    assert(block.holds("type"@, JsonView::Text("tool_use"@)));
    match call {
        CallView::Custom { id, name, arguments } => {
            assert(block.holds("name"@, JsonView::Text(name)));
            assert(block.holds("id"@, JsonView::Text(text::text_or(id, "unknown"@))));
            assert(block.holds("input"@, wire::arguments_value(json::json_parsed(arguments))));
        },
        CallView::Code { code, .. } => {
            assert(block.holds("name"@, JsonView::Text("code_interpreter"@)));
        },
        CallView::Retrieval { query, .. } => {
            assert(block.holds("name"@, JsonView::Text("retrieval"@)));
        },
    }
}

/// A message of the assistant with calls is one more turn, the assistant's. It holds a block with
/// the text, where there is some, and then one block for each call, in order: the call's
/// identifier, the name and the arguments as JSON.
pub proof fn law_assistant_calls_are_sent(
    messages: Seq<MessageView>,
    content: Option<Seq<char>>,
    calls: Seq<CallView>,
    name: Option<Seq<char>>,
)
    requires
        calls.len() > 0,
    ensures
        ({
            let before = turns_json(turns_of(messages));
            let after = turns_json(
                turns_of(
                    messages.push(MessageView::Assistant { content, tool_calls: Some(calls),
                        name }),
                ),
            );
            let at: int = if content matches Some(c) && c.len() > 0 {
                1
            } else {
                0
            };
            &&& after.len() == before.len() + 1
            &&& after.drop_last() == before
            &&& after.last().holds("role"@, JsonView::Text("assistant"@))
            &&& exists|blocks: Seq<JsonView>| #[trigger]
                after.last().holds("content"@, JsonView::Array(blocks)) && blocks.len() == at
                    + calls.len() && (at == 1 ==> blocks[0] == JsonView::Object(
                    map![
                        "type"@ => JsonView::Text("text"@),
                        "text"@ => JsonView::Text(content->Some_0),
                    ],
                )) && forall|i: int|
                    0 <= i < calls.len() ==> says_call(blocks[at + i], #[trigger] calls[i])
        }),
{
    let m = MessageView::Assistant { content, tool_calls: Some(calls), name };
    let turns = turns_of(messages);
    assert(messages.push(m).drop_last() =~= messages);
    let grown = turns_of(messages.push(m));
    let after = turns_json(grown);
    lemma_turn_json(grown.last());
    lemma_turns_json_push(turns, grown.last());
    assert(after.drop_last() =~= turns_json(turns));
    let blocks = assistant_blocks(content, calls);
    let at: int = if content matches Some(c) && c.len() > 0 {
        1
    } else {
        0
    };
    assert forall|i: int| 0 <= i < calls.len() implies says_call(
        blocks[at + i],
        #[trigger] calls[i],
    ) by {
        assert(blocks[at + i] == call_block(calls[i]));
        lemma_call_block(calls[i]);
    }
    assert(after.last().holds("content"@, JsonView::Array(blocks)));
}

/// A system message is no turn. It ends the system prompt, after a blank line where others came
/// before it; every other message leaves the prompt as it is.
pub proof fn law_system_messages_stand_apart(messages: Seq<MessageView>, m: MessageView)
    ensures
        system_prompt(Seq::<MessageView>::empty()) is None,
        turns_json(turns_of(Seq::<MessageView>::empty())) == Seq::<JsonView>::empty(),
        match m {
            MessageView::System { content, .. } => {
                &&& turns_json(turns_of(messages.push(m))) == turns_json(turns_of(messages))
                &&& system_prompt(messages) is None ==> system_prompt(messages.push(m)) == Some(
                    content,
                )
                &&& system_prompt(messages) matches Some(s) ==> system_prompt(messages.push(m))
                    == Some(s + "\n\n"@ + content)
            },
            _ => system_prompt(messages.push(m)) == system_prompt(messages),
        },
{
    assert(messages.push(m).drop_last() =~= messages);
    assert(turns_json(turns_of(Seq::<MessageView>::empty())) =~= Seq::empty());
}

/// What is sent for a completion: the model, the turns, the limit of tokens or 1024, the system
/// prompt where there is one, and each parameter that the request sets.
pub proof fn law_chat_bodies(request: ChatCompletionRequest, model: Seq<char>, other: Seq<char>)
    requires
        other != "model"@,
        other != "messages"@,
        other != "max_tokens"@,
        other != "system"@,
        other != "temperature"@,
        other != "top_p"@,
        other != "stop_sequences"@,
    ensures
        ({
            let body = chat_body(request, model);
            &&& body.holds("model"@, JsonView::Text(model))
            &&& body.holds("messages"@,
                JsonView::Array(turns_json(turns_of(types::messages_view(request.messages@)))))
            &&& body.holds("max_tokens"@,
                JsonView::Number(json::NumberView::Unsigned(
                match request.max_tokens { Some(n) => n as u64, None => 1024 })))
            &&& body.says("system"@, system_prompt(types::messages_view(request.messages@)))
                && (body.has("system"@)
                <==> system_prompt(types::messages_view(request.messages@)) is Some)
            &&& wire::carries_real(body, "temperature"@, request.temperature)
            &&& wire::carries_real(body, "top_p"@, request.top_p)
            &&& wire::carries_texts(body, "stop_sequences"@, request.stop@)
            &&& !body.has(other)
        }),
{
    reveal_strlit("model");
    reveal_strlit("messages");
    reveal_strlit("max_tokens");
    reveal_strlit("system");
    reveal_strlit("temperature");
    reveal_strlit("top_p");
    reveal_strlit("stop_sequences");
    assert("model"@.len() == 5);
    assert("messages"@.len() == 8);
    assert("max_tokens"@.len() == 10);
    assert("system"@.len() == 6);
    assert("temperature"@.len() == 11);
    assert("top_p"@.len() == 5);
    assert("stop_sequences"@.len() == 14);
    assert("model"@[0] != "top_p"@[0]);
    wire::law_stops(request.stop@);
}

/// What is sent for a streamed completion: the model, the turns, the limit of tokens or 1024, the
/// system prompt where there is one, that it is to be streamed, and how to sample where the request
/// says so.
pub proof fn law_stream_bodies(request: ChatCompletionRequest, model: Seq<char>, other: Seq<char>)
    requires
        other != "model"@,
        other != "messages"@,
        other != "max_tokens"@,
        other != "system"@,
        other != "temperature"@,
        other != "top_p"@,
        other != "stream"@,
    ensures
        ({
            let body = stream_body(request, model);
            &&& body.holds("model"@, JsonView::Text(model))
            &&& body.holds("messages"@,
                JsonView::Array(turns_json(turns_of(types::messages_view(request.messages@)))))
            &&& body.holds("max_tokens"@,
                JsonView::Number(json::NumberView::Unsigned(
                match request.max_tokens { Some(n) => n as u64, None => 1024 })))
            &&& body.says("system"@, system_prompt(types::messages_view(request.messages@)))
                && (body.has("system"@)
                <==> system_prompt(types::messages_view(request.messages@)) is Some)
            &&& wire::carries_real(body, "temperature"@, request.temperature)
            &&& wire::carries_real(body, "top_p"@, request.top_p)
            &&& body.holds("stream"@, JsonView::Bool(true))
            &&& !body.has(other)
        }),
{
    reveal_strlit("model");
    reveal_strlit("messages");
    reveal_strlit("max_tokens");
    reveal_strlit("system");
    reveal_strlit("temperature");
    reveal_strlit("top_p");
    reveal_strlit("stream");
    assert("model"@.len() == 5);
    assert("messages"@.len() == 8);
    assert("max_tokens"@.len() == 10);
    assert("system"@.len() == 6);
    assert("temperature"@.len() == 11);
    assert("top_p"@.len() == 5);
    assert("stream"@.len() == 6);
    assert("model"@[0] != "top_p"@[0]);
    assert("system"@[1] != "stream"@[1]);
}

/// The tool has the function's name, its description or null, and its parameters or those of a
/// function that takes none.
pub open spec fn describes(tool: JsonView, f: FunctionDefinition) -> bool {
    &&& tool.holds("name"@, JsonView::Text(f.name@))
    &&& tool.holds(
        "description"@,
        match f.description {
            Some(d) => JsonView::Text(d@),
            None => JsonView::Null,
        },
    )
    &&& tool.holds(
        "input_schema"@,
        match f.parameters {
            Some(p) => p@,
            None => JsonView::Object(
                map![
                    "type"@ => JsonView::Text("object"@),
                    "properties"@ => JsonView::Object(Map::empty()),
                ],
            ),
        },
    )
}

proof fn lemma_describes(f: FunctionDefinition)
    ensures
        describes(tool_json(f), f),
{
    reveal_strlit("name");
    reveal_strlit("description");
    reveal_strlit("input_schema");
    assert("name"@.len() == 4);
    assert("description"@.len() == 11);
    assert("input_schema"@.len() == 12);
}

/// What is sent for a completion with functions: the model, the turns, the limit of tokens or 4096,
/// the system prompt where there is one, one tool for each function, in order, with the choice left
/// open, and each parameter that the request sets.
pub proof fn law_function_bodies(request: ChatCompletionRequest, model: Seq<char>,
    functions: Seq<FunctionDefinition>, other: Seq<char>)
    requires
        other != "model"@,
        other != "messages"@,
        other != "max_tokens"@,
        other != "system"@,
        other != "temperature"@,
        other != "top_p"@,
        other != "stop_sequences"@,
        other != "tools"@,
        other != "tool_choice"@,
    ensures
        ({
            let body = functions_body(request, model, functions);
            &&& body.holds("model"@, JsonView::Text(model))
            &&& body.holds("messages"@,
                JsonView::Array(turns_json(turns_of(types::messages_view(request.messages@)))))
            &&& body.holds("max_tokens"@,
                JsonView::Number(json::NumberView::Unsigned(
                match request.max_tokens { Some(n) => n as u64, None => 4096 })))
            &&& body.says("system"@, system_prompt(types::messages_view(request.messages@)))
                && (body.has("system"@)
                <==> system_prompt(types::messages_view(request.messages@)) is Some)
            &&& wire::carries_real(body, "temperature"@, request.temperature)
            &&& wire::carries_real(body, "top_p"@, request.top_p)
            &&& wire::carries_texts(body, "stop_sequences"@, request.stop@)
            &&& exists|tools: Seq<JsonView>| #[trigger]
                body.holds("tools"@, JsonView::Array(tools)) && tools.len() == functions.len()
                    && forall|i: int|
                    0 <= i < tools.len() ==> describes(#[trigger] tools[i], functions[i])
            &&& body.holds("tool_choice"@,
                JsonView::Object(map!["type"@ => JsonView::Text("auto"@)]))
            &&& !body.has(other)
        }),
{
    reveal_strlit("model");
    reveal_strlit("messages");
    reveal_strlit("max_tokens");
    reveal_strlit("system");
    reveal_strlit("temperature");
    reveal_strlit("top_p");
    reveal_strlit("stop_sequences");
    reveal_strlit("tools");
    reveal_strlit("tool_choice");
    assert("model"@.len() == 5);
    assert("messages"@.len() == 8);
    assert("max_tokens"@.len() == 10);
    assert("system"@.len() == 6);
    assert("temperature"@.len() == 11);
    assert("top_p"@.len() == 5);
    assert("stop_sequences"@.len() == 14);
    assert("tools"@.len() == 5);
    assert("tool_choice"@.len() == 11);
    assert("model"@[0] != "top_p"@[0]);
    assert("model"@[0] != "tools"@[0]);
    assert("temperature"@[1] != "tool_choice"@[1]);
    assert("top_p"@[2] != "tools"@[2]);
    wire::law_stops(request.stop@);
    let tools = functions.map_values(|f: FunctionDefinition| tool_json(f));
    assert forall|i: int| 0 <= i < tools.len() implies describes(#[trigger] tools[i],
        functions[i]) by {
        lemma_describes(functions[i]);
    }
    assert(functions_body(request, model, functions).holds("tools"@, JsonView::Array(tools)));
}

/// The answer's identifier, moment and model are read as they stand there. One
/// without an identifier is unknown, one without a model is of the model that was asked for.
pub proof fn law_answers_are_read(
    j: JsonView,
    model: Seq<char>,
    id: Option<Seq<char>>,
    named: Option<Seq<char>>,
    created: u64,
)
    requires
        j.says("id"@, id),
        j.says("model"@, named),
        j.counts("created"@, created),
    ensures
        ({
            let r = parsed_response(j, model);
            &&& r.id == (if id is Some {
                id->0
            } else {
                "unknown"@
            })
            &&& r.model == (if named is Some {
                named->0
            } else {
                model
            })
            &&& r.created == created
            &&& r.system_fingerprint is None
            &&& r.object == "chat.completion"@
        }),
{
}

/// An answer is one choice. It ends with calls of tools, at the limit of tokens, or, for any other
/// reason or none, of itself.
pub proof fn law_one_choice(j: JsonView, model: Seq<char>, stop: Option<Seq<char>>)
    requires
        j.says("stop_reason"@, stop),
    ensures
        ({
            let choices = parsed_response(j, model).choices;
            &&& choices.len() == 1
            &&& choices[0].index == 0
            &&& choices[0].logprobs is None
            &&& stop == Some("tool_use"@) ==> choices[0].finish_reason == Some("tool_calls"@)
            &&& stop == Some("max_tokens"@) ==> choices[0].finish_reason == Some("length"@)
            &&& stop != Some("tool_use"@) && stop != Some("max_tokens"@)
                ==> choices[0].finish_reason == Some("stop"@)
        }),
{
    reveal_strlit("tool_use");
    reveal_strlit("max_tokens");
    assert("tool_use"@.len() == 8 && "max_tokens"@.len() == 10);
}

/// The counts in the usage statistics of an answer are read as they stand there, in 32 bits, and
/// their sum is the total; without statistics nothing is read. Statistics are complete if and only
/// if both counts stand in them.
pub proof fn law_usage_is_read(
    j: JsonView,
    model: Seq<char>,
    u: JsonView,
    input: u64,
    output: u64,
)
    requires
        j.offers("usage"@, u),
        u.counts("input_tokens"@, input),
        u.counts("output_tokens"@, output),
        input % 0x1_0000_0000 + output % 0x1_0000_0000 <= u32::MAX,
    ensures
        parsed_response(j, model).usage is Some <==> u is Object,
        parsed_response(j, model).usage matches Some(r) ==> r.prompt_tokens == input % 0x1_0000_0000
            && r.completion_tokens == output % 0x1_0000_0000 && r.total_tokens == r.prompt_tokens
            + r.completion_tokens,
        usage_complete(j) <==> (u is Object ==> u.has("input_tokens"@) && u.has("output_tokens"@)),
{
    json::lemma_low_half(input);
    json::lemma_low_half(output);
}

/// The block holds a text.
pub open spec fn is_text(block: JsonView) -> bool {
    block.holds("type"@, JsonView::Text("text"@)) && !block.says("text"@, None)
}

proof fn lemma_block_texts(blocks: Seq<JsonView>)
    ensures
        block_texts(blocks).len() == 0 <==> forall|i: int|
            0 <= i < blocks.len() ==> !is_text(#[trigger] blocks[i]),
    decreases blocks.len(),
{
    if blocks.len() > 0 {
        let front = blocks.drop_last();
        lemma_block_texts(front);
        assert forall|i: int| 0 <= i < front.len() implies front[i] == #[trigger] blocks[i] by {
        }
        if block_texts(blocks).len() == 0 {
            assert forall|i: int| 0 <= i < blocks.len() implies !is_text(#[trigger] blocks[i]) by {
                if i < front.len() {
                    assert(!is_text(front[i]));
                }
            }
        } else if forall|i: int| 0 <= i < blocks.len() ==> !is_text(#[trigger] blocks[i]) {
            assert forall|i: int| 0 <= i < front.len() implies !is_text(#[trigger] front[i]) by {
                assert(!is_text(blocks[i]));
            }
            assert(!is_text(blocks[blocks.len() - 1]));
        }
    }
}

/// One more block with a text puts that text at the end of the answer's; one more block with the
/// use of a tool puts that call behind the answer's calls; any other block makes no difference.
/// The text is missing only where there are calls and no text at all.
pub proof fn law_blocks_are_read(
    j: JsonView,
    k: JsonView,
    model: Seq<char>,
    blocks: Seq<JsonView>,
    block: JsonView,
    kind: Option<Seq<char>>,
    words: Option<Seq<char>>,
    id: Option<Seq<char>>,
    name: Option<Seq<char>>,
    input: JsonView,
)
    requires
        j.lists("content"@, blocks),
        k.lists("content"@, blocks.push(block)),
        block.says("type"@, kind),
        block.says("text"@, words),
        block.says("id"@, id),
        block.says("name"@, name),
        block.offers("input"@, input),
    ensures
        parsed_response(j, model).choices[0].message matches MessageView::Assistant {
            content: before,
            tool_calls: calls,
            name: n,
        } && n is None && (blocks.len() == 0 ==> before == Some(Seq::<char>::empty())
            && calls is None) && (before is None <==> calls is Some && forall|i: int|
            0 <= i < blocks.len() ==> !is_text(#[trigger] blocks[i])) && (parsed_response(
            k,
            model,
        ).choices[0].message matches MessageView::Assistant {
            content: after,
            tool_calls: more,
            name: _,
        } && {
            &&& kind == Some("text"@) && words is Some ==> more == calls && after == Some(
                (if before is Some {
                    before->0
                } else {
                    Seq::empty()
                }) + words->0,
            )
            &&& kind == Some("text"@) && words is None ==> more == calls && after == before
            &&& kind == Some("tool_use"@) ==> (after is Some ==> after == before) && more == Some(
                (if calls is Some {
                    calls->0
                } else {
                    Seq::empty()
                }).push(
                    CallView::Custom {
                        id: Some(
                            if id is Some {
                                id->0
                            } else {
                                "unknown"@
                            },
                        ),
                        name: if name is Some {
                            name->0
                        } else {
                            Seq::empty()
                        },
                        arguments: if json::json_rendered(input) is Some {
                            json::json_rendered(input)->0
                        } else {
                            "{}"@
                        },
                    },
                ),
            )
            &&& kind != Some("text"@) && kind != Some("tool_use"@) ==> more == calls && after
                == before
        }),
{
    reveal_strlit("text");
    reveal_strlit("tool_use");
    assert("text"@.len() == 4 && "tool_use"@.len() == 8);
    assert(blocks.push(block).drop_last() =~= blocks);
    if blocks.len() == 0 {
        assert(j.field("content"@).items_or_none() =~= blocks);
    }
    lemma_block_texts(blocks);
    let texts = block_texts(blocks);
    let calls = block_calls(blocks);
    if calls.len() == 0 {
        assert(calls =~= Seq::empty());
    }
    if texts.len() == 0 {
        assert(text::joined(texts) =~= Seq::empty());
    }
    match block_text(block) {
        Some(s) => {
            assert(texts.push(s).drop_last() =~= texts);
            assert(text::joined(texts.push(s)) == text::joined(texts) + s);
        },
        None => {},
    }
    assert(k.field("content"@).items_or_none() == blocks.push(block));
}

/// The models that are listed, with their limits, abilities and prices.
pub proof fn law_listed_models(p: AnthropicProvider)
    ensures
        ({
            let all = catalogue::family_models(p.models(), table());
            &&& all.len() == 3
            &&& all[0].id == p.models().id@ + "-3-5-sonnet-20241022"@ && all[0].name
                == p.models().title@ + " 3.5 Sonnet"@
            &&& all[0].provider == "anthropic"@
            &&& all[0].description
                == Some(
                "Latest "@ + p.models().title@ + " model with improved reasoning and code skills"@)
            &&& catalogue::is_line(all[0], 200000, 4096, true, true, 3_000_000, 15_000_000,
                1724076800,)
            &&& all[1].id == p.models().id@ + "-3-opus-20240229"@ && all[1].name
                == p.models().title@ + " 3 Opus"@
            &&& all[1].provider == "anthropic"@
            &&& all[1].description
                == Some(
                "Most capable "@ + p.models().title@ + " model for complex reasoning tasks"@)
            &&& catalogue::is_line(all[1], 200000, 4096, true, true, 15_000_000, 75_000_000,
                1709251200,)
            &&& all[2].id == p.models().id@ + "-3-haiku-20240307"@ && all[2].name
                == p.models().title@ + " 3 Haiku"@
            &&& all[2].provider == "anthropic"@
            &&& all[2].description
                == Some("Fast and compact "@ + p.models().title@ + " model for simple tasks"@)
            &&& catalogue::is_line(all[2], 200000, 4096, true, false, 800_000, 4_000_000,
                1709251200,)
        }),
{
    catalogue::law_models_of_families(p.models(), table(), 0);
    catalogue::law_models_of_families(p.models(), table(), 1);
    catalogue::law_models_of_families(p.models(), table(), 2);
}

/// What a request is estimated to cost: the tokens of its messages and the tokens that it allows,
/// or a thousand, each at the price of the model's kind.
pub proof fn law_estimates(p: AnthropicProvider, request: ChatCompletionRequest, m: Seq<char>)
    requires
        p.model_for(request.model@) == Ok::<Seq<char>, ErrorView>(m),
    ensures
        p.cost(request) matches Ok(e) && {
            &&& e.model == m
            &&& e.provider == "anthropic"@
            &&& e.input_tokens == types::prompt_tokens(types::messages_view(request.messages@))
            &&& e.output_tokens == (match request.max_tokens {
                Some(n) => n,
                None => 1000u32,
            })
            &&& e.total_cost == e.input_cost + e.output_cost
            &&& text::occurs(m, "opus"@) ==> e.input_cost == e.input_tokens * 15_000_000
                && e.output_cost == e.output_tokens * 75_000_000
            &&& !text::occurs(m, "opus"@) && text::occurs(m, "sonnet"@) ==> e.input_cost
                == e.input_tokens * 3_000_000 && e.output_cost == e.output_tokens * 15_000_000
            &&& !text::occurs(m, "opus"@) && !text::occurs(m, "sonnet"@)
                && text::occurs(m, "haiku"@) ==> e.input_cost == e.input_tokens * 250_000
                && e.output_cost == e.output_tokens * 1_250_000
            &&& !text::occurs(m, "opus"@) && !text::occurs(m, "sonnet"@)
                && !text::occurs(m, "haiku"@) ==> e.input_cost == e.input_tokens * 3_000_000
                && e.output_cost == e.output_tokens * 15_000_000
        },
{
    wire::law_estimates_add_up(request, m, estimate_prices(m).0, estimate_prices(m).1,
        "anthropic"@);
}

/// A request is for the model that it names, else for the default model, and fails where there is
/// no default.
pub proof fn law_models_are_resolved(p: AnthropicProvider, model: Seq<char>)
    ensures
        model.len() > 0 ==> p.model_for(model) == Ok::<Seq<char>, ErrorView>(model),
        model.len() == 0 ==> match p.settings().default_model {
            Some(d) => p.model_for(model) == Ok::<Seq<char>, ErrorView>(d@),
            None => p.model_for(model) == Err::<Seq<char>, ErrorView>(
                (ErrorView::ConfigurationError {
                    message: "No model configured for AnthropicProvider — set default_model in AnthropicConfig or pass a model in the request"@,
                    field: Some("default_model"@),
                }),
            ),
        },
{
}

/// A body is posted to the messages API below the base URL, with the key and the version.
pub proof fn law_requests_are_posted(p: AnthropicProvider, body: JsonView)
    ensures
        ({
            let r = p.posted(body);
            &&& r.method == http::Method::Post
            &&& r.url == (match p.settings().base_url {
                Some(u) => u@,
                None => "https://api.anthropic.com/v1"@,
            }) + "/messages"@
            &&& r.headers == seq![
                ("x-api-key"@, p.settings().api_key@),
                ("anthropic-version"@, "2023-06-01"@),
                ("Content-Type"@, "application/json"@),
            ]
            &&& r.body == Some(body)
        }),
{
}

/// The provider is Anthropic. It supports four models of its family; any model whose name has the
/// family's in it calls functions. Nothing is said of limits, prices and abilities.
pub proof fn law_what_is_known(p: AnthropicProvider, model: Seq<char>)
    ensures
        p.id() == "anthropic"@,
        p.catalogue().contains(model) <==> model == p.models().id@ + "-3-5-sonnet-20241022"@
            || model == p.models().id@ + "-3-5-sonnet"@ || model == p.models().id@
            + "-3-opus-20240229"@ || model == p.models().id@ + "-3-haiku-20240307"@,
        p.calls_functions(model) <==> exists|a: Seq<char>, b: Seq<char>|
            model == #[trigger] (a + p.models().id@ + b),
        p.prices(model) is None,
        p.limits() matches Ok(s) && s.remaining is None && s.limit is None && s.tokens_remaining
            is None && s.tokens_limit is None && s.reset_at is None && s.retry_after is None,
        p.abilities(model) matches Some(a) && !a.function_calling && !a.vision && !a.streaming
            && !a.json_mode && !a.caching && a.max_tokens == 0 && a.context_window == 0,
{
    let f = p.models().id@;
    let s = supported(f);
    assert(s[0] == f + "-3-5-sonnet-20241022"@ && s[1] == f + "-3-5-sonnet"@ && s[2] == f
        + "-3-opus-20240229"@ && s[3] == f + "-3-haiku-20240307"@);
    text::law_occurrences(model, f);
}

/// The message that brings the result of a tool.
pub open spec fn brings_result(result: (Seq<char>, Seq<char>)) -> MessageView {
    MessageView::Tool { tool_call_id: result.0, content: result.1 }
}

/// Results that come one after the other, behind any conversation, all stand in the last turn of
/// those that are sent, which is the user's: each once, in their order, at the end of its blocks.
pub proof fn law_results_keep_their_order(
    messages: Seq<MessageView>,
    results: Seq<(Seq<char>, Seq<char>)>,
)
    requires
        results.len() > 0,
    ensures
        ({
            let sent = turns_json(
                turns_of(messages + results.map_values(|r: (Seq<char>, Seq<char>)| brings_result(r))),
            );
            &&& sent.len() > 0
            &&& sent.last().holds("role"@, JsonView::Text("user"@))
            &&& exists|blocks: Seq<JsonView>| #[trigger]
                sent.last().holds("content"@, JsonView::Array(blocks)) && blocks.len()
                    >= results.len() && forall|i: int|
                    0 <= i < results.len() ==> is_result(
                        #[trigger] results[i],
                        blocks[blocks.len() - results.len() + i],
                    )
        }),
    decreases results.len(),
{
    let bring = |r: (Seq<char>, Seq<char>)| brings_result(r);
    let front = results.drop_last();
    let last = results.last();
    let before = messages + front.map_values(bring);
    let m = brings_result(last);
    assert(messages + results.map_values(bring) =~= before.push(m));
    law_results_are_sent(before, m, last.0, last.1);
    let earlier = turns_json(turns_of(before));
    let sent = turns_json(turns_of(before.push(m)));
    let blocks = choose|blocks: Seq<JsonView>| #[trigger]
        sent.last().holds("content"@, JsonView::Array(blocks));
    assert(sent.last().holds("content"@, JsonView::Array(blocks)));
    assert(is_result(last, blocks.last()));
    if front.len() > 0 {
        law_results_keep_their_order(messages, front);
        let held = choose|held: Seq<JsonView>| #[trigger]
            earlier.last().holds("content"@, JsonView::Array(held)) && held.len() >= front.len();
        assert(earlier.last().holds("content"@, JsonView::Array(held)));
        assert(blocks.drop_last() == held);
        assert forall|i: int| 0 <= i < results.len() implies is_result(
            #[trigger] results[i],
            blocks[blocks.len() - results.len() + i],
        ) by {
            if i < front.len() {
                assert(is_result(front[i], held[held.len() - front.len() + i]));
            }
        }
    }
}

/// The block is this result, under the identifier of its call.
pub open spec fn is_result(result: (Seq<char>, Seq<char>), block: JsonView) -> bool {
    block == JsonView::Object(
        map![
            "type"@ => JsonView::Text("tool_result"@),
            "tool_use_id"@ => JsonView::Text(result.0),
            "content"@ => JsonView::Text(result.1),
        ],
    )
}

} // verus!
