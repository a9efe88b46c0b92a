use vincents_llm::error::LLMError;
use vincents_llm::http::{HttpFailure, HttpOutcome, Method};
use vincents_llm::json::{parse, render, Json};
use vincents_llm::ollama::{
    check_usage, parse_tool_calls, serialize_message, OllamaConfig, OllamaModel, OllamaProvider,
    TagsOutcome,
};
use vincents_llm::provider::LLMProvider;
use vincents_llm::types::{
    custom_call, ChatCompletionRequest, ChatMessage, FunctionDefinition, Usage,
};

fn text(s: &str) -> String {
    s.to_string()
}

fn provider() -> OllamaProvider {
    OllamaProvider::new("http://h", "llama3.2").unwrap()
}

fn same(j: &Json, expected: &str) {
    assert_eq!(render(j), render(&parse(expected).unwrap()));
}

fn request() -> ChatCompletionRequest {
    let mut r = ChatCompletionRequest::default();
    r.messages = vec![ChatMessage::user("12345678")];
    r.max_tokens = Some(9);
    r
}

#[test]
fn messages_in_ollama_form() {
    same(
        &serialize_message(&ChatMessage::Assistant {
            content: None,
            tool_calls: Some(vec![custom_call(Some(text("i")), text("f"), text("{\"a\":1}"))]),
            name: None,
        }),
        "{\"role\":\"assistant\",\"content\":\"\",\"tool_calls\":[{\"function\":\
          {\"name\":\"f\",\"arguments\":{\"a\":1}}}]}",
    );
    same(
        &serialize_message(&ChatMessage::Tool { tool_call_id: text("t"), content: text("c") }),
        "{\"role\":\"tool\",\"content\":\"c\",\"tool_name\":\"t\"}",
    );
}

#[test]
fn ollama_requests() {
    let (http, model) = provider().chat_completion_request(&request()).unwrap();
    assert_eq!(model, "llama3.2");
    assert_eq!(http.url, "http://h/api/chat");
    same(
        http.body.as_ref().unwrap(),
        "{\"model\":\"llama3.2\",\"messages\":[{\"role\":\"user\",\"content\":\"12345678\"}],\
          \"stream\":false,\"num_predict\":9}",
    );
    let functions =
        vec![FunctionDefinition { name: text("f"), description: None, parameters: None }];
    let (http, _) =
        provider().chat_completion_with_functions_request(&request(), &functions).unwrap();
    same(
        http.body.as_ref().unwrap().at("tools"),
        "[{\"type\":\"function\",\"function\":{\"name\":\"f\"}}]",
    );
    let mut other = request();
    other.model = text("tinyllama");
    assert_eq!(
        provider().chat_completion_with_functions_request(&other, &functions),
        Err(LLMError::UnsupportedError {
            operation: text("function_calling"),
            provider: Some(text("ollama")),
            model: Some(text("tinyllama")),
        })
    );
    let (http, _) = provider().chat_completion_stream_request(&request()).unwrap();
    assert_eq!(http.body.unwrap().at("stream").as_flag(), Some(true));
    assert!(OllamaProvider::with_config(OllamaConfig { host: text(""), default_model: None })
        .is_err());
    let bare = OllamaProvider::with_config(OllamaConfig::default()).unwrap();
    assert!(bare.chat_completion_request(&request()).is_err());
    assert_eq!(bare.health_check_request().url, "http://localhost:11434/api/version");
}

#[test]
fn ollama_responses() {
    let j = parse(
        "{\"message\":{\"content\":\"1234567890123456\",\"tool_calls\":[\
          {\"function\":{\"name\":\"f\",\"arguments\":{\"a\":1}}},{\"function\":{\"name\":\"g\"}}]}}",
    )
    .unwrap();
    assert!(check_usage(&request(), &j));
    let r = provider()
        .chat_completion_response_at(
            &request(),
            "m",
            true,
            HttpOutcome::Answered { json: j.duplicate() },
            12,
            34,
        )
        .unwrap();
    assert_eq!(r.id, "ollama_12");
    assert_eq!(r.created, 34);
    assert_eq!(r.usage, Some(Usage::new(2, 4)));
    assert_eq!(r.choices[0].finish_reason, Some(text("tool_calls")));
    assert_eq!(
        r.choices[0].message,
        ChatMessage::Assistant {
            content: Some(text("1234567890123456")),
            tool_calls: Some(vec![custom_call(None, text("f"), text("{\"a\":1}"))]),
            name: None,
        }
    );
    let plain = provider()
        .chat_completion_response(&request(), "m", false, HttpOutcome::Answered { json: j })
        .unwrap();
    assert_eq!(plain.choices[0].message, ChatMessage::assistant("1234567890123456"));
    assert_eq!(plain.choices[0].finish_reason, Some(text("stop")));
    assert!(plain.id.starts_with("ollama_"));
    assert!(parse_tool_calls(&Json::Null).is_none());
    assert!(parse_tool_calls(&Json::Array(vec![])).is_none());
    assert_eq!(
        provider().chat_completion_response(
            &request(),
            "m",
            true,
            HttpOutcome::Unreadable { message: text("eof") }
        ),
        Err(LLMError::SerializationError {
            message: text("eof"),
            context: Some(text("Failed to parse Ollama function calling response")),
        })
    );
}

#[test]
fn ollama_models_of_the_server() {
    let p = provider();
    assert_eq!(p.list_models_request().method, Method::Get);
    assert_eq!(p.list_models_request().url, "http://h/api/tags");
    let models = p
        .list_models_response(TagsOutcome::Listed {
            models: Some(vec![OllamaModel { name: text("Mistral:7b"), size: text("4GB") }]),
        })
        .unwrap();
    assert_eq!(models[0].id, "Mistral:7b");
    assert_eq!(models[0].description, Some(text("Ollama model (4GB)")));
    assert!(models[0].capabilities.function_calling);
    assert_eq!(models[0].context_window, 4096);
    assert!(models[0].pricing.unwrap().is_free);
    assert!(p.list_models_response(TagsOutcome::Listed { models: None }).unwrap().is_empty());
    assert_eq!(
        p.list_models_response(TagsOutcome::Failed {
            failure: HttpFailure::Refused {
                status: text("500 Oops"),
                code: 500,
                body: Some(text("b")),
            }
        }),
        Err(LLMError::HttpError {
            message: text("Ollama API returned status: 500 Oops"),
            status_code: Some(500),
            body: None,
        })
    );
    assert_eq!(
        p.list_models_response(TagsOutcome::Unreadable { message: text("eof") }),
        Err(LLMError::SerializationError {
            message: text("Failed to parse Ollama response: eof"),
            context: Some(text("list_models")),
        })
    );
}

#[test]
fn ollama_models_in_detail() {
    let j = parse(
        "{\"models\":[{\"name\":\"DeepSeek-Coder\",\"details\":{\"family\":\"llama\",\
          \"parameter_size\":\"7B\",\"quantization_level\":\"Q4\"}},{},{\"name\":\"x\"}]}",
    )
    .unwrap();
    let models = provider().fetch_models_response(HttpOutcome::Answered { json: j }).unwrap();
    assert_eq!(models.len(), 2);
    assert_eq!(models[0].name, "DeepSeek-Coder (7B, Q4)");
    assert_eq!(models[0].description, Some(text("Local Ollama (llama)")));
    assert!(models[0].capabilities.function_calling);
    assert_eq!(models[0].capabilities.strengths, vec!["coding"]);
    assert_eq!(models[1].name, "x (?, ?)");
    assert!(!models[1].capabilities.function_calling);
}

#[test]
fn ollama_is_free_and_checked() {
    let p = provider();
    let estimate = p.estimate_cost(&request()).unwrap();
    assert_eq!((estimate.input_tokens, estimate.output_tokens), (2, 9));
    assert_eq!(estimate.total_cost, 0);
    assert_eq!(p.rate_limit_status().unwrap().remaining, Some(999999));
    assert_eq!(p.health_check(Ok(true)), Ok(true));
    assert_eq!(p.health_check(Ok(false)), Ok(false));
    assert_eq!(
        p.health_check(Err(text("refused"))),
        Err(LLMError::HttpError { message: text("refused"), status_code: None, body: None })
    );
    assert!(p.supports_function_calling("QWEN3:4b"));
    assert!(!p.supports_function_calling("tinyllama"));
}
