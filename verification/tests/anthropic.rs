use vincents_llm::anthropic::{check_usage, convert_messages, AnthropicConfig, AnthropicProvider};
use vincents_llm::catalogue::ModelFamily;
use vincents_llm::error::LLMError;
use vincents_llm::http::{HttpFailure, HttpOutcome};
use vincents_llm::json::{parse, render, Json};
use vincents_llm::provider::LLMProvider;
use vincents_llm::types::{
    custom_call, ChatCompletionRequest, ChatMessage, CodeInterpreterCall, FunctionCall,
    FunctionDefinition, RetrievalCall, ToolCall, Usage,
};

fn text(s: &str) -> String {
    s.to_string()
}

fn family() -> ModelFamily {
    ModelFamily { id: text("sonata"), title: text("Sonata") }
}

fn provider() -> AnthropicProvider {
    AnthropicProvider::new("k", family()).unwrap()
}

fn same(j: &Json, expected: &str) {
    assert_eq!(render(j), render(&parse(expected).unwrap()));
}

fn turns(messages: Vec<ChatMessage>, expected: &str) {
    same(&Json::Array(convert_messages(&messages).1), expected);
}

fn tool(id: &str, content: &str) -> ChatMessage {
    ChatMessage::Tool { tool_call_id: text(id), content: text(content) }
}

#[test]
fn anthropic_needs_a_key() {
    match AnthropicProvider::with_config(AnthropicConfig::default(), family()) {
        Err(LLMError::ConfigurationError { message, .. }) => {
            assert_eq!(message, "Anthropic API key is required");
        }
        _ => panic!("a key is required"),
    }
}

#[test]
fn system_messages_make_the_prompt() {
    let (system, rest) = convert_messages(&vec![
        ChatMessage::system("one"),
        ChatMessage::user("hi"),
        ChatMessage::system("two"),
    ]);
    assert_eq!(system, Some(text("one\n\ntwo")));
    assert_eq!(rest.len(), 1);
    assert_eq!(convert_messages(&vec![]).0, None);
}

#[test]
fn user_turns_are_merged() {
    turns(
        vec![ChatMessage::user("a"), ChatMessage::user("b"), ChatMessage::assistant("c")],
        "[{\"role\":\"user\",\"content\":\"a\\n\\nb\"},{\"role\":\"assistant\",\"content\":\"c\"}]",
    );
}

#[test]
fn tool_results_join_the_user_turn() {
    turns(
        vec![ChatMessage::user("a"), tool("t1", "r1"), tool("t2", "r2")],
        "[{\"role\":\"user\",\"content\":[{\"type\":\"text\",\"text\":\"a\"},\
          {\"type\":\"tool_result\",\"tool_use_id\":\"t1\",\"content\":\"r1\"},\
          {\"type\":\"tool_result\",\"tool_use_id\":\"t2\",\"content\":\"r2\"}]}]",
    );
    turns(
        vec![
            ChatMessage::user(""),
            ChatMessage::Function { name: text("f"), arguments: text("x") },
        ],
        "[{\"role\":\"user\",\"content\":[\
          {\"type\":\"tool_result\",\"tool_use_id\":\"f\",\"content\":\"x\"}]}]",
    );
    turns(
        vec![ChatMessage::assistant("q"), tool("t1", "r1"), ChatMessage::user("b")],
        "[{\"role\":\"assistant\",\"content\":\"q\"},{\"role\":\"user\",\"content\":\"\\n\\nb\"}]",
    );
}

#[test]
fn assistant_turns_with_calls() {
    let calls = vec![
        custom_call(None, text("f"), text("{\"a\":1}")),
        custom_call(Some(text("c")), text("g"), text("not json")),
        ToolCall::Function(FunctionCall::Code(CodeInterpreterCall {
            code: text("1+1"),
            stdin: None,
        })),
        ToolCall::Function(FunctionCall::Retrieval(RetrievalCall {
            query: text("q"),
            max_results: Some(3),
        })),
    ];
    turns(
        vec![ChatMessage::Assistant {
            content: Some(text("look")),
            tool_calls: Some(calls),
            name: None,
        }],
        "[{\"role\":\"assistant\",\"content\":[{\"type\":\"text\",\"text\":\"look\"},\
          {\"type\":\"tool_use\",\"id\":\"unknown\",\"name\":\"f\",\"input\":{\"a\":1}},\
          {\"type\":\"tool_use\",\"id\":\"c\",\"name\":\"g\",\"input\":{}},\
          {\"type\":\"tool_use\",\"id\":\"code_interpreter\",\"name\":\"code_interpreter\",\
          \"input\":{\"code\":\"1+1\"}},{\"type\":\"tool_use\",\"id\":\"retrieval\",\
          \"name\":\"retrieval\",\"input\":{\"query\":\"q\"}}]}]",
    );
    turns(
        vec![ChatMessage::Assistant { content: None, tool_calls: Some(vec![]), name: None }],
        "[{\"role\":\"assistant\",\"content\":\"\"}]",
    );
}

fn request() -> ChatCompletionRequest {
    let mut r = ChatCompletionRequest::default();
    r.model = text("sonata-3-opus-20240229");
    r.messages = vec![ChatMessage::system("s"), ChatMessage::user("u")];
    r.stop = vec![text("x")];
    r
}

#[test]
fn anthropic_requests() {
    let (http, model) = provider().chat_completion_request(&request()).unwrap();
    assert_eq!(model, "sonata-3-opus-20240229");
    assert_eq!(http.url, "https://api.anthropic.com/v1/messages");
    assert_eq!(
        http.headers,
        vec![
            (text("x-api-key"), text("k")),
            (text("anthropic-version"), text("2023-06-01")),
            (text("Content-Type"), text("application/json")),
        ]
    );
    same(
        http.body.as_ref().unwrap(),
        "{\"model\":\"sonata-3-opus-20240229\",\"max_tokens\":1024,\"system\":\"s\",\
          \"messages\":[{\"role\":\"user\",\"content\":\"u\"}],\"stop_sequences\":[\"x\"]}",
    );
    let proxied = AnthropicProvider::with_endpoint("k", "http://p", family()).unwrap();
    let (http, _) = proxied.chat_completion_stream_request(&request()).unwrap();
    assert_eq!(http.url, "http://p/messages");
    same(
        http.body.as_ref().unwrap(),
        "{\"model\":\"sonata-3-opus-20240229\",\"max_tokens\":1024,\"system\":\"s\",\
          \"messages\":[{\"role\":\"user\",\"content\":\"u\"}],\"stream\":true}",
    );
    let functions = vec![FunctionDefinition {
        name: text("f"),
        description: None,
        parameters: None,
    }];
    let (http, _) =
        provider().chat_completion_with_functions_request(&request(), &functions).unwrap();
    same(
        http.body.as_ref().unwrap(),
        "{\"model\":\"sonata-3-opus-20240229\",\"max_tokens\":4096,\"system\":\"s\",\
          \"messages\":[{\"role\":\"user\",\"content\":\"u\"}],\"stop_sequences\":[\"x\"],\
          \"tools\":[{\"name\":\"f\",\"description\":null,\"input_schema\":\
          {\"type\":\"object\",\"properties\":{}}}],\"tool_choice\":{\"type\":\"auto\"}}",
    );
    let mut nameless = request();
    nameless.model = String::new();
    assert!(provider().chat_completion_request(&nameless).is_err());
}

#[test]
fn anthropic_responses() {
    let j = parse(
        "{\"id\":\"m1\",\"content\":[{\"type\":\"text\",\"text\":\"a\"},\
          {\"type\":\"image\"},{\"type\":\"text\",\"text\":\"b\"},\
          {\"type\":\"tool_use\",\"id\":\"t\",\"name\":\"f\",\"input\":{\"y\":2,\"x\":1}}],\
          \"stop_reason\":\"tool_use\",\"usage\":{\"input_tokens\":3,\"output_tokens\":4}}",
    )
    .unwrap();
    assert!(check_usage(&j));
    let r = provider()
        .chat_completion_response("sonata-x", HttpOutcome::Answered { json: j })
        .unwrap();
    assert_eq!(r.model, "sonata-x");
    assert_eq!(r.usage, Some(Usage::new(3, 4)));
    assert_eq!(r.choices[0].finish_reason, Some(text("tool_calls")));
    assert_eq!(
        r.choices[0].message,
        ChatMessage::Assistant {
            content: Some(text("ab")),
            tool_calls: Some(vec![custom_call(
                Some(text("t")),
                text("f"),
                text("{\"x\":1,\"y\":2}")
            )]),
            name: None,
        }
    );
    for (reason, expected) in [("end_turn", "stop"), ("max_tokens", "length"), ("odd", "stop")] {
        let j = parse(&format!("{{\"stop_reason\":\"{}\"}}", reason)).unwrap();
        let r = provider()
            .chat_completion_response("m", HttpOutcome::Answered { json: j })
            .unwrap();
        assert_eq!(r.choices[0].finish_reason, Some(text(expected)));
        assert_eq!(r.choices[0].message, ChatMessage::assistant(""));
    }
    assert!(!check_usage(&parse("{\"usage\":{\"input_tokens\":3}}").unwrap()));
    assert!(!check_usage(
        &parse("{\"usage\":{\"input_tokens\":4294967295,\"output_tokens\":1}}").unwrap()
    ));
}

#[test]
fn anthropic_failures() {
    let failure =
        HttpFailure::Refused { status: text("500 Oops"), code: 500, body: None };
    let error = LLMError::HttpError {
        message: text("Anthropic API error: 500 Oops"),
        status_code: Some(500),
        body: None,
    };
    let p = provider();
    assert_eq!(p.chat_completion_stream_error(failure.clone()), error);
    assert_eq!(p.chat_completion_response("m", HttpOutcome::Failed { failure }), Err(error));
}

#[test]
fn anthropic_costs_and_models() {
    let p = provider();
    let mut r = request();
    r.messages = vec![ChatMessage::user("12345678")];
    let opus = p.estimate_cost(&r).unwrap();
    assert_eq!((opus.input_cost, opus.output_cost), (2 * 15_000_000, 1000 * 75_000_000));
    r.model = text("some-haiku");
    let haiku = p.estimate_cost(&r).unwrap();
    assert_eq!((haiku.input_cost, haiku.output_cost), (2 * 250_000, 1000 * 1_250_000));
    r.model = text("other");
    assert_eq!(p.estimate_cost(&r).unwrap().input_cost, 6_000_000);
    assert!(p.supports_function_calling("my-sonata-4"));
    assert!(!p.supports_function_calling("gpt-4"));
    assert!(p.supports_model("sonata-3-5-sonnet"));
    assert_eq!(p.supported_models().len(), 4);
}
