use vincents_llm::error::LLMError;
use vincents_llm::gemini::{
    check_usage, convert_message, normalize_finish_reason, GeminiConfig, GeminiProvider,
};
use vincents_llm::http::{HttpFailure, HttpOutcome, Method};
use vincents_llm::json::{parse, render, Json};
use vincents_llm::provider::LLMProvider;
use vincents_llm::types::{
    custom_call, ChatCompletionRequest, ChatMessage, FunctionDefinition, Usage,
};

fn text(s: &str) -> String {
    s.to_string()
}

fn provider() -> GeminiProvider {
    GeminiProvider::new("k").unwrap()
}

fn same(j: &Json, expected: &str) {
    assert_eq!(render(j), render(&parse(expected).unwrap()));
}

fn request() -> ChatCompletionRequest {
    let mut r = ChatCompletionRequest::default();
    r.model = text("gemini-1.5-pro");
    r.messages = vec![ChatMessage::system("s"), ChatMessage::user("u")];
    r.max_tokens = Some(9);
    r
}

#[test]
fn messages_as_contents() {
    same(
        &convert_message(&ChatMessage::Assistant {
            content: Some(text("t")),
            tool_calls: Some(vec![
                custom_call(None, text("f"), text("{\"a\":1}")),
                custom_call(None, text("g"), text("?")),
            ]),
            name: None,
        }),
        "{\"role\":\"model\",\"parts\":[{\"text\":\"t\"},{\"functionCall\":{\"name\":\"f\",\
          \"args\":{\"a\":1}}},{\"functionCall\":{\"name\":\"g\",\"args\":{}}}]}",
    );
    same(
        &convert_message(&ChatMessage::assistant("")),
        "{\"role\":\"model\",\"parts\":[{\"text\":\"\"}]}",
    );
    same(
        &convert_message(&ChatMessage::Tool { tool_call_id: text("f"), content: text("c") }),
        "{\"role\":\"user\",\"parts\":[{\"functionResponse\":{\"name\":\"f\",\
          \"response\":{\"content\":\"c\"}}}]}",
    );
}

#[test]
fn gemini_requests() {
    let (http, model) = provider().chat_completion_request(&request()).unwrap();
    assert_eq!(model, "gemini-1.5-pro");
    assert_eq!(
        http.url,
        "https://generativelanguage.googleapis.com/v1beta/models/gemini-1.5-pro:generateContent?key=k"
    );
    same(
        http.body.as_ref().unwrap(),
        "{\"contents\":[{\"role\":\"system\",\"parts\":[{\"text\":\"s\"}]},\
          {\"role\":\"user\",\"parts\":[{\"text\":\"u\"}]}],\"maxOutputTokens\":9}",
    );
    let (http, _) = provider().chat_completion_stream_request(&request()).unwrap();
    assert_eq!(http.body.unwrap().at("stream").as_flag(), Some(true));
    let functions = vec![FunctionDefinition {
        name: text("f"),
        description: Some(text("d")),
        parameters: None,
    }];
    let (http, _) =
        provider().chat_completion_with_functions_request(&request(), &functions).unwrap();
    same(
        http.body.as_ref().unwrap(),
        "{\"contents\":[{\"role\":\"user\",\"parts\":[{\"text\":\"u\"}]}],\
          \"systemInstruction\":{\"parts\":[{\"text\":\"s\"}]},\"tools\":[{\
          \"functionDeclarations\":[{\"name\":\"f\",\"description\":\"d\"}]}],\
          \"toolConfig\":{\"functionCallingConfig\":{\"mode\":\"AUTO\"}},\"maxOutputTokens\":9}",
    );
    let mut plain = request();
    plain.messages = vec![ChatMessage::user("u")];
    let (http, _) = provider().chat_completion_with_functions_request(&plain, &functions).unwrap();
    assert!(http.body.unwrap().get("systemInstruction").is_none());
}

#[test]
fn gemini_configuration() {
    assert!(GeminiProvider::with_config(GeminiConfig::default()).is_err());
    let mut config = GeminiConfig::default();
    config.api_key = text("k");
    config.default_model = Some(text("m"));
    let p = GeminiProvider::with_config(config).unwrap();
    assert_eq!(
        p.get_base_url().unwrap(),
        "https://generativelanguage.googleapis.com/v1beta/models/m:generateContent"
    );
    assert!(provider().get_base_url().is_err());
}

#[test]
fn gemini_responses() {
    let j = parse(
        "{\"candidates\":[{\"content\":{\"parts\":[{\"text\":\"a\"},{\"text\":\"b\"}]},\
          \"finishReason\":\"STOP\"},{\"content\":{\"parts\":[{\"functionCall\":{\"name\":\"f\",\
          \"args\":{\"x\":1}}},{\"functionCall\":{}}]},\"finishReason\":\"STOP\"},{\
          \"finishReason\":\"MAX_TOKENS\"}],\"usageMetadata\":{\"promptTokenCount\":3,\
          \"candidatesTokenCount\":4}}",
    )
    .unwrap();
    assert!(check_usage(&j));
    let r = provider()
        .chat_completion_response_at("m", HttpOutcome::Answered { json: j }, 12, 34)
        .unwrap();
    assert_eq!(r.id, "gemini_12");
    assert_eq!(r.created, 34);
    assert_eq!(r.model, "m");
    assert_eq!(r.usage, Some(Usage::new(3, 4)));
    assert_eq!(r.choices[0].message, ChatMessage::assistant("ab"));
    assert_eq!(r.choices[0].finish_reason, Some(text("stop")));
    assert_eq!(
        r.choices[1].message,
        ChatMessage::Assistant {
            content: None,
            tool_calls: Some(vec![
                custom_call(None, text("f"), text("{\"x\":1}")),
                custom_call(None, text(""), text("{}")),
            ]),
            name: None,
        }
    );
    assert_eq!(r.choices[1].finish_reason, Some(text("tool_calls")));
    assert_eq!(r.choices[2].finish_reason, Some(text("max_tokens")));
    assert_eq!(r.choices[2].index, 2);
    let now = provider()
        .chat_completion_response("m", HttpOutcome::Answered { json: parse("{}").unwrap() })
        .unwrap();
    assert!(now.id.starts_with("gemini_") && now.created > 1600000000);
    assert!(now.usage.is_none());
    assert!(!check_usage(
        &parse(
            "{\"usageMetadata\":{\"promptTokenCount\":4294967295,\"candidatesTokenCount\":1}}"
        )
        .unwrap()
    ));
}

#[test]
fn gemini_finish_reasons() {
    assert_eq!(normalize_finish_reason(Some("STOP"), false), Some(text("stop")));
    assert_eq!(normalize_finish_reason(Some("STOP"), true), Some(text("tool_calls")));
    assert_eq!(normalize_finish_reason(Some("SAFETY"), true), Some(text("content_filter")));
    assert_eq!(normalize_finish_reason(Some("OTHER"), false), Some(text("other")));
    assert_eq!(normalize_finish_reason(None, true), None);
}

#[test]
fn gemini_live_models() {
    let p = provider();
    let http = p.list_models_request();
    assert_eq!(http.method, Method::Get);
    assert_eq!(
        http.url,
        "https://generativelanguage.googleapis.com/v1beta/models?key=k"
    );
    let keyless = GeminiProvider::new("").unwrap();
    assert!(keyless.list_models_request().url.ends_with("/v1beta/models"));
    let j = parse(
        "{\"models\":[{\"name\":\"models/gemini-1.5-flash\",\"displayName\":\"Flash\",\
          \"inputTokenLimit\":10,\"outputTokenLimit\":5},{\"displayName\":\"nameless\"},\
          {\"name\":\"embedding\"}]}",
    )
    .unwrap();
    let models = p.list_models_response(HttpOutcome::Answered { json: j });
    assert_eq!(models.len(), 2);
    assert_eq!(models[0].id, "gemini-1.5-flash");
    assert_eq!(models[0].name, "Flash");
    assert_eq!(models[0].context_window, 10);
    assert_eq!(models[0].capabilities.input_modalities, vec!["text", "image"]);
    assert!(models[0].pricing.unwrap().is_free);
    assert_eq!(models[1].name, "embedding");
    assert!(!models[1].capabilities.vision);
    let none = HttpOutcome::Answered { json: parse("{}").unwrap() };
    assert!(p.list_models_response(none).is_empty());
    let refused = HttpOutcome::Failed {
        failure: HttpFailure::Refused { status: text("403 No"), code: 403, body: None },
    };
    assert_eq!(
        p.fetch_models_response(refused),
        Err(LLMError::HttpError {
            message: text("Gemini /models returned 403 No"),
            status_code: Some(403),
            body: None,
        })
    );
    assert_eq!(
        p.fetch_models_response(HttpOutcome::Answered { json: parse("[]").unwrap() }),
        Err(LLMError::SerializationError {
            message: text("Missing 'models' array"),
            context: None,
        })
    );
}

#[test]
fn gemini_costs_and_models() {
    let p = provider();
    let mut r = request();
    r.messages = vec![ChatMessage::user("12345678")];
    let pro = p.estimate_cost(&r).unwrap();
    assert_eq!((pro.input_cost, pro.output_cost), (2 * 1_250_000, 9 * 5_000_000));
    r.model = text("gemini-1.5-flash");
    let flash = p.estimate_cost(&r).unwrap();
    assert_eq!((flash.input_cost, flash.output_cost), (2 * 75_000, 9 * 300_000));
    r.model = text("gemini-1.0");
    assert_eq!(p.estimate_cost(&r).unwrap().input_cost, 1_000_000);
    assert!(p.supports_function_calling("GEMINI-PRO"));
    assert!(!p.supports_function_calling("gemini-1.0"));
    assert!(p.supported_models().is_empty());
}
