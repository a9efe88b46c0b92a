use vincents_llm::config::{GlobalLLMSettings, LLMConfig, ProviderConfig};
use vincents_llm::provider_manager::ProviderManagerConfig;
use vincents_llm::telemetry::{
    Level, LlmTelemetryAttributes, LlmTelemetryRecorder, LogEvent, NoopTelemetryRecorder,
    TelemetrySpan, TracingTelemetryRecorder,
};
use vincents_llm::error::LLMError;
use vincents_llm::types::{
    ChatCompletionRequest, ChatCompletionResponse, ChatMessage, Chunk, ChunkCompletion,
    MessageRole, ModelCapabilities,
};

#[test]
fn defaults_of_the_configuration() {
    let config = LLMConfig::default();
    assert_eq!(config.default_provider, "openai");
    assert_eq!(config.providers.len(), 0);
    assert_eq!(
        config.global,
        GlobalLLMSettings {
            cost_tracking: true,
            rate_limiting: true,
            failover_enabled: true,
            max_retries: 3,
            default_timeout_secs: 60,
            streaming_enabled: true,
            max_concurrent_requests: 10,
        }
    );
    let provider = ProviderConfig::default();
    assert_eq!(provider.timeout_secs, 60);
    assert!(provider.api_key.is_none());
    assert!(provider.rate_limits.is_none());
    let manager = ProviderManagerConfig::default();
    assert_eq!(manager.default_provider, "openai");
    assert!(manager.failover_enabled);
    assert_eq!(manager.health_check_interval_sec, 60);
    assert_eq!(manager.circuit_breaker_threshold, 5);
    assert_eq!(manager.circuit_breaker_timeout_sec, 30);
}

#[test]
fn defaults_of_requests_and_capabilities() {
    let request = ChatCompletionRequest::default();
    assert_eq!(request.model, "");
    assert!(request.messages.is_empty());
    assert!(request.max_tokens.is_none() && request.stop.is_empty());
    let capabilities = ModelCapabilities::default();
    assert!(!capabilities.streaming && capabilities.strengths.is_empty());
}

#[test]
fn messages_have_roles_and_content() {
    assert_eq!(ChatMessage::system("s").role(), MessageRole::System);
    assert_eq!(ChatMessage::user("u").content(), Some("u"));
    let silent = ChatMessage::Assistant { content: None, tool_calls: None, name: None };
    assert_eq!(silent.content(), None);
    assert_eq!(silent.role(), MessageRole::Assistant);
    let function =
        ChatMessage::Function { name: "f".to_string(), arguments: "{}".to_string() };
    assert_eq!(function.content(), Some("{}"));
    assert_eq!(function.role(), MessageRole::Function);
    let tool = ChatMessage::Tool { tool_call_id: "t".to_string(), content: "r".to_string() };
    assert_eq!(tool.content(), Some("r"));
    assert_eq!(tool.role(), MessageRole::Tool);
}

fn event(level: Level, message: &'static str, fields: Vec<(&'static str, &str)>) -> LogEvent {
    LogEvent {
        level,
        message,
        fields: fields.into_iter().map(|(k, v)| (k, v.to_string())).collect(),
    }
}

fn chunk() -> Chunk {
    Chunk::Completion(ChunkCompletion {
        id: "i".to_string(),
        object: "o".to_string(),
        created: 0,
        model: "m".to_string(),
        choices: vec![],
    })
}

fn failure() -> LLMError {
    LLMError::TimeoutError { timeout_secs: 3, message: None }
}

#[test]
fn spans_record_events() {
    let span = TelemetrySpan::new("chat", 1_000_000).with_field("k", "v");
    let mut request = ChatCompletionRequest::default();
    request.model = "gpt-4".to_string();
    request.messages = vec![ChatMessage::user("a"), ChatMessage::user("b")];
    assert_eq!(
        span.record_request(&request),
        event(
            Level::Debug,
            "LLM request started",
            vec![("provider", "unknown"), ("model", "gpt-4"), ("messages", "2")]
        )
    );
    let response = ChatCompletionResponse {
        id: "i".to_string(),
        object: "o".to_string(),
        created: 0,
        model: "gpt-4".to_string(),
        choices: vec![],
        usage: None,
        system_fingerprint: None,
    };
    assert_eq!(
        span.record_response(&response, 43_999_999),
        event(
            Level::Debug,
            "LLM response received",
            vec![("provider", "gpt-4"), ("choices", "0"), ("elapsed_ms", "42")]
        )
    );
    assert_eq!(
        span.record_chunk(&chunk()),
        event(
            Level::Trace,
            "Streaming chunk received",
            vec![("provider", "unknown"), ("model", "m")]
        )
    );
    assert_eq!(
        span.record_error(&failure()),
        event(
            Level::Error,
            "LLM operation failed",
            vec![("error_type", "Request timeout after 3 seconds")]
        )
    );
}

#[test]
fn recorders_record_operations() {
    let attrs = LlmTelemetryAttributes::new("p".to_string(), "m".to_string(), "chat")
        .with_request_id("r1".to_string());
    let recorder = TracingTelemetryRecorder::new();
    let named = vec![("provider", "p"), ("model", "m"), ("operation", "chat")];
    let mut started = named.clone();
    started.push(("request_id", "r1"));
    assert_eq!(
        recorder.record_request_started(&attrs),
        Some(event(Level::Info, "llm.request", started))
    );
    let mut completed = named.clone();
    completed.push(("duration_ms", "12"));
    assert_eq!(
        recorder.record_request_completed(&attrs, 12_345_678),
        Some(event(Level::Info, "LLM request completed", completed))
    );
    let mut failed = named.clone();
    failed.push(("error", "Request timeout after 3 seconds"));
    assert_eq!(
        recorder.record_error(&attrs, &failure()),
        Some(event(Level::Error, "LLM request failed", failed))
    );
    assert_eq!(
        recorder.record_chunk(&attrs, &chunk()),
        Some(event(Level::Trace, "Streaming chunk", vec![("provider", "p"), ("model", "m")]))
    );
    let noop = NoopTelemetryRecorder::default();
    assert!(noop.record_request_started(&attrs).is_none());
    assert!(noop.record_request_completed(&attrs, 1).is_none());
    assert!(noop.record_error(&attrs, &failure()).is_none());
    assert!(noop.record_chunk(&attrs, &chunk()).is_none());
}
