use vincents_llm::error::LLMError;
use vincents_llm::http::{HttpFailure, HttpOutcome, HttpRequest, Method};
use vincents_llm::json::{parse, render, Json, Real};
use vincents_llm::openai::{OpenAIConfig, OpenAIProvider};
use vincents_llm::provider::LLMProvider;
use vincents_llm::streaming::Dialect;
use vincents_llm::types::{
    custom_call, ChatCompletionRequest, ChatMessage, FunctionCall, FunctionDefinition,
    RetrievalCall, ToolCall, Usage,
};
use vincents_llm::wire::{check_usage, serialize_message};

fn text(s: &str) -> String {
    s.to_string()
}

fn same(j: &Json, expected: &str) {
    assert_eq!(render(j), render(&parse(expected).unwrap()));
}

fn body(request: &HttpRequest, expected: &str) {
    same(request.body.as_ref().unwrap(), expected);
}

fn decimal(x: f64) -> Option<Real> {
    Some(Real { number: serde_json::Number::from_f64(x) })
}

fn request(model: &str) -> ChatCompletionRequest {
    let mut r = ChatCompletionRequest::default();
    r.model = text(model);
    r.messages = vec![ChatMessage::user("Hello!")];
    r
}

fn provider() -> OpenAIProvider {
    OpenAIProvider::new("k").unwrap()
}

#[test]
fn openai_needs_a_key() {
    match OpenAIProvider::with_config(OpenAIConfig::default()) {
        Err(LLMError::ConfigurationError { message, field }) => {
            assert_eq!(message, "OpenAI API key is required");
            assert_eq!(field, Some(text("api_key")));
        }
        _ => panic!("a key is required"),
    }
}

#[test]
fn openai_chat_request() {
    let mut r = request("gpt-4o");
    r.max_tokens = Some(7);
    r.temperature = decimal(0.5);
    r.top_p = decimal(f64::NAN);
    r.n = Some(2);
    r.stop = vec![text("x")];
    r.presence_penalty = decimal(1.5);
    r.frequency_penalty = decimal(-1.0);
    r.extra_params.set("seed", Json::of_count(3));
    r.extra_params.set("n", Json::of_count(9));
    let http = provider().chat_completion_request(&r);
    assert_eq!(http.method, Method::Post);
    assert_eq!(http.url, "https://api.openai.com/v1/chat/completions");
    assert_eq!(
        http.headers,
        vec![
            (text("Authorization"), text("Bearer k")),
            (text("Content-Type"), text("application/json")),
        ]
    );
    body(
        &http,
        "{\"model\":\"gpt-4o\",\"messages\":[{\"role\":\"user\",\"content\":\"Hello!\"}],\
          \"max_tokens\":7,\"temperature\":0.5,\"top_p\":null,\"n\":9,\"stop\":[\"x\"],\
          \"presence_penalty\":1.5,\"frequency_penalty\":-1.0,\"seed\":3}",
    );
}

#[test]
fn openai_functions_request() {
    let functions = vec![
        FunctionDefinition {
            name: text("f"),
            description: Some(text("d")),
            parameters: parse("{\"type\":\"object\"}"),
        },
        FunctionDefinition { name: text("g"), description: None, parameters: None },
    ];
    let http = provider().chat_completion_with_functions_request(&request("gpt-4o"), &functions);
    body(
        &http,
        "{\"model\":\"gpt-4o\",\"messages\":[{\"role\":\"user\",\"content\":\"Hello!\"}],\
          \"tools\":[{\"type\":\"function\",\"function\":{\"name\":\"f\",\"description\":\"d\",\
          \"parameters\":{\"type\":\"object\"}}},{\"type\":\"function\",\"function\":\
          {\"name\":\"g\"}}]}",
    );
}

#[test]
fn openai_stream_request_and_default_model() {
    let (http, stream) = provider().chat_completion_stream_request(&request("gpt-4o")).unwrap();
    body(
        &http,
        "{\"model\":\"gpt-4o\",\"messages\":[{\"role\":\"user\",\"content\":\"Hello!\"}],\
          \"stream\":true}",
    );
    assert_eq!(stream.chunk_count(), 0);
    match provider().chat_completion_stream_request(&request("")) {
        Err(LLMError::ConfigurationError { message, field }) => {
            assert!(message.starts_with("No model configured for OpenAIProvider"));
            assert_eq!(field, Some(text("default_model")));
        }
        _ => panic!("no model is named"),
    }
    let mut config = OpenAIConfig::default();
    config.api_key = text("k");
    config.base_url = Some(text("http://proxy"));
    config.default_model = Some(text("o1"));
    let configured = OpenAIProvider::with_config(config).unwrap();
    let (http, _) = configured.chat_completion_stream_request(&request("")).unwrap();
    assert_eq!(http.url, "http://proxy/chat/completions");
    assert_eq!(http.body.unwrap().at("model").as_text(), Some("o1"));
    let _ = Dialect::OpenAi;
}

#[test]
fn messages_in_openai_form() {
    same(
        &serialize_message(&ChatMessage::System { content: text("s"), name: Some(text("n")) }),
        "{\"role\":\"system\",\"content\":\"s\",\"name\":\"n\"}",
    );
    same(
        &serialize_message(&ChatMessage::Tool { tool_call_id: text("t"), content: text("c") }),
        "{\"role\":\"tool\",\"tool_call_id\":\"t\",\"content\":\"c\"}",
    );
    same(
        &serialize_message(&ChatMessage::Function { name: text("f"), arguments: text("a") }),
        "{\"role\":\"function\",\"name\":\"f\",\"content\":\"a\"}",
    );
    let retrieval = ToolCall::Function(FunctionCall::Retrieval(RetrievalCall {
        query: text("q"),
        max_results: None,
    }));
    same(
        &serialize_message(&ChatMessage::Assistant {
            content: None,
            tool_calls: Some(vec![retrieval.clone(), custom_call(None, text("f"), text("{}"))]),
            name: None,
        }),
        "{\"role\":\"assistant\",\"content\":null,\"tool_calls\":[{\"id\":\"\",\
          \"type\":\"function\",\"function\":{\"name\":\"f\",\"arguments\":\"{}\"}}]}",
    );
    same(
        &serialize_message(&ChatMessage::Assistant {
            content: Some(text("x")),
            tool_calls: Some(vec![retrieval]),
            name: None,
        }),
        "{\"role\":\"assistant\",\"content\":\"x\"}",
    );
}

#[test]
fn assistant_messages_come_back() {
    let message = ChatMessage::Assistant {
        content: Some(text("thinking")),
        tool_calls: Some(vec![
            custom_call(Some(text("c1")), text("f"), text("{\"a\":1}")),
            custom_call(Some(text("c2")), text("g"), text("{}")),
        ]),
        name: None,
    };
    let j = serialize_message(&message);
    assert_eq!(OpenAIProvider::parse_assistant_message(&j), message);
}

#[test]
fn openai_response() {
    let j = parse(
        "{\"id\":\"r1\",\"created\":5,\"system_fingerprint\":\"fp\",\"choices\":[\
          {\"message\":{\"content\":\"Hi\"},\"finish_reason\":\"stop\"},\
          {\"message\":{\"tool_calls\":[{\"function\":{\"name\":\"f\"}},{\"id\":\"x\"},\
          {\"function\":{}}]}}],\
          \"usage\":{\"prompt_tokens\":3,\"completion_tokens\":4,\"total_tokens\":7}}",
    )
    .unwrap();
    assert!(check_usage(&j));
    let response = provider()
        .chat_completion_response(&request("gpt-4o"), HttpOutcome::Answered { json: j })
        .unwrap();
    assert_eq!(response.id, "r1");
    assert_eq!(response.object, "chat.completion");
    assert_eq!(response.created, 5);
    assert_eq!(response.model, "gpt-4o");
    assert_eq!(response.system_fingerprint, Some(text("fp")));
    assert_eq!(response.usage, Some(Usage::new(3, 4)));
    assert_eq!(response.choices.len(), 2);
    assert_eq!(response.choices[0].message, ChatMessage::assistant("Hi"));
    assert_eq!(response.choices[0].finish_reason, Some(text("stop")));
    assert_eq!(response.choices[1].index, 1);
    assert_eq!(
        response.choices[1].message,
        ChatMessage::Assistant {
            content: None,
            tool_calls: Some(vec![custom_call(None, text("f"), text("{}"))]),
            name: None,
        }
    );
    let empty = parse("{\"model\":\"other\"}").unwrap();
    let bare = OpenAIProvider::build_response(&empty, "gpt-4o");
    assert_eq!(bare.id, "unknown");
    assert_eq!(bare.model, "other");
    assert!(bare.choices.is_empty() && bare.usage.is_none());
    assert!(!check_usage(&parse("{\"usage\":{\"prompt_tokens\":3}}").unwrap()));
}

#[test]
fn openai_failures() {
    let p = provider();
    let r = request("gpt-4o");
    let unsent = HttpFailure::Unsent { message: text("refused") };
    assert_eq!(
        p.chat_completion_response(&r, HttpOutcome::Failed { failure: unsent.clone() }),
        Err(LLMError::HttpError { message: text("refused"), status_code: None, body: None })
    );
    let refused = HttpFailure::Refused {
        status: text("429 Too Many Requests"),
        code: 429,
        body: Some(text("slow down")),
    };
    let error = LLMError::HttpError {
        message: text("OpenAI API error: 429 Too Many Requests"),
        status_code: Some(429),
        body: Some(text("slow down")),
    };
    assert_eq!(
        p.chat_completion_response(&r, HttpOutcome::Failed { failure: refused.clone() }),
        Err(error.clone())
    );
    assert_eq!(p.chat_completion_stream_error(refused), error);
    assert_eq!(
        p.chat_completion_response(&r, HttpOutcome::Unreadable { message: text("eof") }),
        Err(LLMError::SerializationError {
            message: text("eof"),
            context: Some(text("Failed to parse OpenAI response")),
        })
    );
}

#[test]
fn openai_costs_and_models() {
    let p = provider();
    let mut r = request("gpt-3.5-turbo-0125");
    r.messages = vec![
        ChatMessage::user("12345678"),
        ChatMessage::Assistant { content: None, tool_calls: None, name: None },
    ];
    r.max_tokens = Some(100);
    let estimate = p.estimate_cost(&r).unwrap();
    assert_eq!(estimate.input_tokens, 12);
    assert_eq!(estimate.output_tokens, 100);
    assert_eq!(estimate.input_cost, 12 * 500_000);
    assert_eq!(estimate.output_cost, 100 * 1_500_000);
    assert_eq!(estimate.total_cost, 156_000_000);
    assert_eq!(estimate.provider, "openai");
    // Half a dollar and a dollar and a half for a million tokens.
    assert_eq!(estimate.total_cost as f64 / 1e12, 0.000156);
    let big = p.estimate_cost(&request("gpt-4o")).unwrap();
    assert_eq!(big.output_cost, 1000 * 60_000_000);
    let o1 = p.estimate_cost(&request("o1-mini")).unwrap();
    assert_eq!(o1.input_cost, o1.input_tokens as u128 * 15_000_000);
    assert!(p.supports_model("o1-preview") && p.supports_function_calling("gpt-4"));
    assert!(!p.supports_function_calling("gpt-9"));
    assert_eq!(p.name(), "openai");
    assert_eq!(p.supported_models().len(), 8);
    assert!(p.health_check().unwrap().healthy);
}
