use vincents_llm::error::{ErrorCategory, LLMError};

fn text(s: &str) -> String {
    s.to_string()
}

fn http(code: Option<u16>) -> LLMError {
    LLMError::HttpError { message: text("m"), status_code: code, body: None }
}

fn all() -> Vec<LLMError> {
    vec![
        LLMError::AuthenticationError { message: text("m"), retry_after: Some(9) },
        LLMError::RateLimitError { message: text("m"), retry_after: None, limit: None },
        LLMError::ModelNotAvailable { model: text("m"), available_models: vec![] },
        LLMError::InvalidRequestError { message: text("m"), param: None, code: None },
        http(Some(503)),
        LLMError::TimeoutError { timeout_secs: 30, message: None },
        LLMError::ProviderError { provider: text("p"), message: text("m"), code: None },
        LLMError::ConfigurationError { message: text("m"), field: None },
        LLMError::SerializationError { message: text("m"), context: None },
        LLMError::StreamingError { message: text("m"), bytes_received: None },
        LLMError::ContentFilterError { reason: text("m"), flagged_categories: None },
        LLMError::UnsupportedError { operation: text("m"), provider: None, model: None },
        LLMError::ContextLengthExceeded { message: text("m"), max_tokens: 1, requested_tokens: 2 },
        LLMError::ResponseFormatError { message: text("m"), expected: None, actual: None },
        LLMError::QuotaExceeded { message: text("m"), reset_at: None, limit: None },
    ]
}

#[test]
fn errors_are_displayed() {
    let shown: Vec<String> = all().iter().map(|e| e.display()).collect();
    assert_eq!(
        shown,
        vec![
            "Authentication failed: m",
            "Rate limit exceeded: m",
            "Model not available: m",
            "Invalid request: m",
            "HTTP error: m",
            "Request timeout after 30 seconds",
            "Provider error: m",
            "Configuration error: m",
            "Serialization error: m",
            "Streaming error: m",
            "Content moderation triggered: m",
            "Unsupported operation: m",
            "Context window exceeded: m",
            "Unexpected response format: m",
            "Quota exceeded: m",
        ]
    );
}

#[test]
fn errors_for_users() {
    let shown: Vec<String> = all().iter().map(|e| e.user_message()).collect();
    assert_eq!(
        shown,
        vec![
            "Authentication failed: m. Please check your API key.",
            "Rate limit exceeded: m",
            "Model 'm' is not available. Please try a different model.",
            "Invalid request: m",
            "Network error: m",
            "The request timed out. Please try again.",
            "Provider error: m",
            "Configuration error: m",
            "Data error: m",
            "Streaming error: m",
            "Content was filtered: m",
            "Operation 'm' is not supported.",
            "Context too long: m",
            "Unexpected response: m",
            "Quota exceeded: m",
        ]
    );
    let limited =
        LLMError::RateLimitError { message: text("m"), retry_after: Some(1204), limit: None };
    assert_eq!(
        limited.user_message(),
        "Rate limit exceeded. Please try again in 1204 seconds."
    );
}

#[test]
fn retryable_errors() {
    let retryable: Vec<bool> = all().iter().map(|e| e.is_retryable()).collect();
    assert_eq!(
        retryable,
        vec![
            false, true, false, false, true, true, true, false, false, true, false, false, false,
            false, false
        ]
    );
    assert!(http(Some(500)).is_retryable());
    assert!(http(Some(599)).is_retryable());
    assert!(!http(Some(600)).is_retryable());
    assert!(!http(Some(429)).is_retryable());
    assert!(!http(None).is_retryable());
}

#[test]
fn retry_delays() {
    let delays: Vec<Option<u64>> = all().iter().map(|e| e.retry_delay_secs()).collect();
    assert_eq!(delays[0], Some(9));
    assert_eq!(delays[1], None);
    assert_eq!(delays[4], Some(1));
    assert_eq!(delays[5], Some(30));
    assert_eq!(delays[6], None);
    for code in [429, 500, 502, 503, 504] {
        assert_eq!(http(Some(code)).retry_delay_secs(), Some(1));
    }
    assert_eq!(http(Some(501)).retry_delay_secs(), None);
    assert_eq!(http(None).retry_delay_secs(), None);
}

#[test]
fn categories() {
    let found: Vec<ErrorCategory> = all().iter().map(ErrorCategory::from).collect();
    assert_eq!(
        found,
        vec![
            ErrorCategory::Authentication,
            ErrorCategory::RateLimit,
            ErrorCategory::ModelNotAvailable,
            ErrorCategory::InvalidRequest,
            ErrorCategory::Network,
            ErrorCategory::Network,
            ErrorCategory::Provider,
            ErrorCategory::Configuration,
            ErrorCategory::Other,
            ErrorCategory::Other,
            ErrorCategory::Content,
            ErrorCategory::Unsupported,
            ErrorCategory::Other,
            ErrorCategory::Other,
            ErrorCategory::Quota,
        ]
    );
}
