use vincents_llm::catalogue::ModelFamily;
use vincents_llm::error::LLMError;
use vincents_llm::http::{HttpFailure, HttpOutcome};
use vincents_llm::json::{parse, render, Json};
use vincents_llm::openrouter::{OpenRouterConfig, OpenRouterProvider, QuotedPrice};
use vincents_llm::provider::LLMProvider;
use vincents_llm::types::{
    custom_call, ChatCompletionRequest, ChatMessage, FunctionDefinition, Usage,
};

fn text(s: &str) -> String {
    s.to_string()
}

fn family() -> ModelFamily {
    ModelFamily { id: text("sonata"), title: text("Sonata") }
}

fn provider() -> OpenRouterProvider {
    OpenRouterProvider::new("k", family()).unwrap()
}

fn same(j: &Json, expected: &str) {
    assert_eq!(render(j), render(&parse(expected).unwrap()));
}

fn request(model: &str) -> ChatCompletionRequest {
    let mut r = ChatCompletionRequest::default();
    r.model = text(model);
    r.messages = vec![
        ChatMessage::user("12345678"),
        ChatMessage::Tool { tool_call_id: text("t"), content: text("c") },
    ];
    r
}

#[test]
fn openrouter_needs_a_key_or_a_token() {
    assert!(OpenRouterProvider::with_config(OpenRouterConfig::default(), family()).is_err());
    let mut empty = OpenRouterConfig::default();
    empty.jwt_token = Some(text(""));
    match OpenRouterProvider::with_config(empty, family()) {
        Err(LLMError::ConfigurationError { message, field }) => {
            assert_eq!(message, "OpenRouter API key or JWT token is required");
            assert_eq!(field, Some(text("api_key")));
        }
        _ => panic!("a key or a token is required"),
    }
    let mut token = OpenRouterConfig::default();
    token.jwt_token = Some(text("j"));
    let p = OpenRouterProvider::with_config(token, family()).unwrap();
    let (http, _) = p.chat_completion_request(&request("m")).unwrap();
    assert_eq!(http.headers[1], (text("Authorization"), text("Bearer j")));
}

#[test]
fn openrouter_requests() {
    let p = provider().with_referrer("me").with_route("fast");
    let mut r = request("m");
    r.n = Some(2);
    r.extra_params.set("x", Json::of_count(1));
    let (http, model) = p.chat_completion_request(&r).unwrap();
    assert_eq!(model, "m");
    assert_eq!(http.url, "https://openrouter.ai/api/v1/chat/completions");
    assert_eq!(
        http.headers,
        vec![
            (text("Content-Type"), text("application/json")),
            (text("Authorization"), text("Bearer k")),
            (text("HTTP-Referer"), text("me")),
            (text("OpenRouter-Router"), text("fast")),
        ]
    );
    same(
        http.body.as_ref().unwrap(),
        "{\"model\":\"m\",\"messages\":[{\"role\":\"user\",\"content\":\"12345678\"},\
          {\"role\":\"user\",\"content\":\"c\"}],\"n\":2}",
    );
    let (http, _) = p.chat_completion_stream_request(&r).unwrap();
    same(
        http.body.as_ref().unwrap(),
        "{\"model\":\"m\",\"messages\":[{\"role\":\"user\",\"content\":\"12345678\"},\
          {\"role\":\"user\",\"content\":\"c\"}],\"stream\":true}",
    );
    let functions =
        vec![FunctionDefinition { name: text("f"), description: None, parameters: None }];
    let (http, _) = p.chat_completion_with_functions_request(&r, &functions).unwrap();
    same(
        http.body.as_ref().unwrap(),
        "{\"model\":\"m\",\"messages\":[{\"role\":\"user\",\"content\":\"12345678\"},\
          {\"role\":\"tool\",\"tool_call_id\":\"t\",\"content\":\"c\"}],\"x\":1,\
          \"tools\":[{\"type\":\"function\",\"function\":{\"name\":\"f\"}}]}",
    );
    assert!(p.chat_completion_request(&request("")).is_err());
}

#[test]
fn openrouter_responses() {
    let j = parse(
        "{\"id\":\"r\",\"choices\":[{\"message\":{\"role\":\"system\",\"content\":\"a\"}},\
          {\"message\":{\"role\":\"user\",\"content\":\"b\"}},{\"message\":{\"tool_calls\":[\
          {\"id\":\"\",\"function\":{}},{\"id\":\"x\",\"function\":{\"name\":\"f\",\
          \"arguments\":\"{1}\"}},{}]}}],\
          \"usage\":{\"prompt_tokens\":1,\"completion_tokens\":2,\"total_tokens\":3}}",
    )
    .unwrap();
    let p = provider();
    let plain = p
        .chat_completion_response("m", false, HttpOutcome::Answered { json: j.duplicate() })
        .unwrap();
    assert_eq!(plain.choices[0].message, ChatMessage::system("a"));
    assert_eq!(plain.choices[1].message, ChatMessage::user("b"));
    assert_eq!(plain.choices[2].message, ChatMessage::assistant(""));
    assert_eq!(plain.usage, Some(Usage::new(1, 2)));
    assert_eq!(plain.model, "m");
    let called =
        p.chat_completion_response("m", true, HttpOutcome::Answered { json: j }).unwrap();
    assert_eq!(called.choices[0].message, ChatMessage::assistant("a"));
    assert_eq!(
        called.choices[2].message,
        ChatMessage::Assistant {
            content: None,
            tool_calls: Some(vec![
                custom_call(None, text(""), text("{}")),
                custom_call(Some(text("x")), text("f"), text("{1}")),
            ]),
            name: None,
        }
    );
    let failure = HttpFailure::Refused { status: text("401 No"), code: 401, body: None };
    assert_eq!(
        p.chat_completion_stream_error(failure).display(),
        "HTTP error: OpenRouter API error: 401 No"
    );
}

#[test]
fn openrouter_live_models() {
    let p = provider();
    assert_eq!(p.list_models_request().url, "https://openrouter.ai/api/v1/models");
    let j = parse(
        "{\"data\":[{\"id\":\"X/DeepSeek-Coder-Math\",\"context_length\":4294967297,\
          \"created\":7,\"architecture\":{\"input_modalities\":[\"text\",\"image\",3],\
          \"output_modalities\":[\"text\"]},\"supported_parameters\":[\"tool_choice\",\
          \"structured_outputs\"],\"pricing\":{\"prompt\":\"0.000001\",\"completion\":0.5},\
          \"top_provider\":{\"max_completion_tokens\":9}},{}]}",
    )
    .unwrap();
    let models = p.list_models_response(HttpOutcome::Answered { json: j }).unwrap();
    assert_eq!(models.len(), 2);
    let m = &models[0].model;
    assert_eq!(m.id, "X/DeepSeek-Coder-Math");
    assert_eq!(m.name, "X/DeepSeek-Coder-Math");
    assert_eq!(m.context_window, 1);
    assert_eq!(m.max_output_tokens, 9);
    assert!(m.capabilities.vision && m.capabilities.function_calling && m.capabilities.json_mode);
    assert_eq!(m.capabilities.input_modalities, vec!["text", "image"]);
    assert_eq!(m.capabilities.strengths, vec!["coding", "math", "vision"]);
    assert_eq!(models[0].prompt_price, QuotedPrice::Text(text("0.000001")));
    assert_eq!(
        models[0].completion_price,
        QuotedPrice::Number(serde_json::Number::from_f64(0.5).unwrap())
    );
    assert_eq!(models[1].prompt_price, QuotedPrice::Missing);
    assert_eq!(models[1].model.id, "");
    assert!(models[1].model.capabilities.strengths.is_empty());
    assert_eq!(
        p.list_models_response(HttpOutcome::Answered { json: parse("{}").unwrap() }),
        Err(LLMError::SerializationError {
            message: text("Missing 'data' array in models response"),
            context: None,
        })
    );
    let refused = |body: Option<String>| HttpOutcome::Failed {
        failure: HttpFailure::Refused { status: text("503 Busy"), code: 503, body },
    };
    assert_eq!(
        p.list_models_response(refused(Some(text("later")))),
        Err(LLMError::HttpError {
            message: text("OpenRouter /models returned 503 Busy: later"),
            status_code: Some(503),
            body: Some(text("later")),
        })
    );
    assert_eq!(
        p.list_models_response(refused(None)).unwrap_err().display(),
        "HTTP error: OpenRouter /models returned 503 Busy: "
    );
    let unsent =
        HttpOutcome::Failed { failure: HttpFailure::Unsent { message: text("refused") } };
    assert_eq!(
        p.list_models_response(unsent).unwrap_err().display(),
        "HTTP error: Failed to fetch OpenRouter models: refused"
    );
    assert_eq!(
        p.list_models_response(HttpOutcome::Unreadable { message: text("eof") }),
        Err(LLMError::SerializationError {
            message: text("eof"),
            context: Some(text("Failed to parse OpenRouter models response")),
        })
    );
}

#[test]
fn openrouter_costs_and_models() {
    let p = provider();
    for (model, input, output) in [
        ("openai/gpt-4o-mini", 5_000_000, 15_000_000),
        ("anthropic/sonata-3.5-sonnet", 3_000_000, 15_000_000),
        ("anthropic/sonata-3-opus", 15_000_000, 75_000_000),
        ("google/gemini-1.5-pro", 1_250_000, 5_000_000),
        ("meta-llama/llama-3.1-70b", 500_000, 1_500_000),
        ("deepseek/deepseek-chat", 140_000, 280_000),
        ("mistralai/mistral-7b", 250_000, 250_000),
        ("cohere/command-r", 10_000_000, 30_000_000),
    ] {
        let estimate = p.estimate_cost(&request(model)).unwrap();
        assert_eq!(estimate.input_cost, 2 * input);
        assert_eq!(estimate.output_cost, 1000 * output);
        assert!(p.supports_model(model));
        assert!(p.supports_function_calling(model));
    }
    assert_eq!(p.supported_models().len(), 9);
    assert!(p.estimate_cost(&request("")).is_err());
}
