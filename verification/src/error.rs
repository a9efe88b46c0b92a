//! Errors of LLM operations: authentication, rate limiting, model availability, network.

use crate::json::Real;
use crate::text;
use vstd::prelude::*;

verus! {

/// An error of an LLM operation.
#[derive(Debug, Clone, PartialEq)]
pub enum LLMError {
    /// Authentication failed: invalid or missing API key.
    AuthenticationError { message: String, retry_after: Option<u64> },
    /// Rate limit exceeded.
    RateLimitError { message: String, retry_after: Option<u64>, limit: Option<u64> },
    /// Requested model is not available.
    ModelNotAvailable { model: String, available_models: Vec<String> },
    /// Invalid request parameters.
    InvalidRequestError { message: String, param: Option<String>, code: Option<u32> },
    /// HTTP or network error.
    HttpError { message: String, status_code: Option<u16>, body: Option<String> },
    /// Request timeout.
    TimeoutError { timeout_secs: u64, message: Option<String> },
    /// Provider-specific error.
    ProviderError { provider: String, message: String, code: Option<String> },
    /// Configuration error.
    ConfigurationError { message: String, field: Option<String> },
    /// Serialization or deserialization error.
    SerializationError { message: String, context: Option<String> },
    /// Streaming error.
    StreamingError { message: String, bytes_received: Option<u64> },
    /// Content moderation triggered.
    ContentFilterError { reason: String, flagged_categories: Option<Vec<String>> },
    /// Unsupported operation.
    UnsupportedError { operation: String, provider: Option<String>, model: Option<String> },
    /// Context window exceeded.
    ContextLengthExceeded { message: String, max_tokens: u32, requested_tokens: u32 },
    /// Unexpected response format.
    ResponseFormatError { message: String, expected: Option<String>, actual: Option<String> },
    /// Quota exceeded.
    QuotaExceeded { message: String, reset_at: Option<String>, limit: Option<Real> },
}

/// An error, mathematically.
pub enum ErrorView {
    AuthenticationError { message: Seq<char>, retry_after: Option<u64> },
    RateLimitError { message: Seq<char>, retry_after: Option<u64>, limit: Option<u64> },
    ModelNotAvailable { model: Seq<char>, available_models: Seq<Seq<char>> },
    InvalidRequestError { message: Seq<char>, param: Option<Seq<char>>, code: Option<u32> },
    HttpError { message: Seq<char>, status_code: Option<u16>, body: Option<Seq<char>> },
    TimeoutError { timeout_secs: u64, message: Option<Seq<char>> },
    ProviderError { provider: Seq<char>, message: Seq<char>, code: Option<Seq<char>> },
    ConfigurationError { message: Seq<char>, field: Option<Seq<char>> },
    SerializationError { message: Seq<char>, context: Option<Seq<char>> },
    StreamingError { message: Seq<char>, bytes_received: Option<u64> },
    ContentFilterError { reason: Seq<char>, flagged_categories: Option<Seq<Seq<char>>> },
    UnsupportedError { operation: Seq<char>, provider: Option<Seq<char>>, model: Option<Seq<char>> },
    ContextLengthExceeded { message: Seq<char>, max_tokens: u32, requested_tokens: u32 },
    ResponseFormatError { message: Seq<char>, expected: Option<Seq<char>>, actual: Option<Seq<char>> },
    QuotaExceeded { message: Seq<char>, reset_at: Option<Seq<char>>, limit: Option<Real> },
}

/// The views of an optional list of texts.
pub open spec fn opt_texts(o: Option<Vec<String>>) -> Option<Seq<Seq<char>>> {
    match o {
        Some(v) => Some(text::texts(v@)),
        None => None,
    }
}

impl View for LLMError {
    type V = ErrorView;

    open spec fn view(&self) -> ErrorView {
        match *self {
            LLMError::AuthenticationError { message, retry_after } => ErrorView::AuthenticationError {
                message: message@,
                retry_after: retry_after,
            },
            LLMError::RateLimitError { message, retry_after, limit } => ErrorView::RateLimitError {
                message: message@,
                retry_after: retry_after,
                limit: limit,
            },
            LLMError::ModelNotAvailable { model, available_models } => ErrorView::ModelNotAvailable {
                model: model@,
                available_models: text::texts(available_models@),
            },
            LLMError::InvalidRequestError { message, param, code } => ErrorView::InvalidRequestError {
                message: message@,
                param: text::opt_text(param),
                code: code,
            },
            LLMError::HttpError { message, status_code, body } => ErrorView::HttpError {
                message: message@,
                status_code: status_code,
                body: text::opt_text(body),
            },
            LLMError::TimeoutError { timeout_secs, message } => ErrorView::TimeoutError {
                timeout_secs: timeout_secs,
                message: text::opt_text(message),
            },
            LLMError::ProviderError { provider, message, code } => ErrorView::ProviderError {
                provider: provider@,
                message: message@,
                code: text::opt_text(code),
            },
            LLMError::ConfigurationError { message, field } => ErrorView::ConfigurationError {
                message: message@,
                field: text::opt_text(field),
            },
            LLMError::SerializationError { message, context } => ErrorView::SerializationError {
                message: message@,
                context: text::opt_text(context),
            },
            LLMError::StreamingError { message, bytes_received } => ErrorView::StreamingError {
                message: message@,
                bytes_received: bytes_received,
            },
            LLMError::ContentFilterError { reason, flagged_categories } => ErrorView::ContentFilterError {
                reason: reason@,
                flagged_categories: opt_texts(flagged_categories),
            },
            LLMError::UnsupportedError { operation, provider, model } => ErrorView::UnsupportedError {
                operation: operation@,
                provider: text::opt_text(provider),
                model: text::opt_text(model),
            },
            LLMError::ContextLengthExceeded { message, max_tokens, requested_tokens } => ErrorView::ContextLengthExceeded {
                message: message@,
                max_tokens: max_tokens,
                requested_tokens: requested_tokens,
            },
            LLMError::ResponseFormatError { message, expected, actual } => ErrorView::ResponseFormatError {
                message: message@,
                expected: text::opt_text(expected),
                actual: text::opt_text(actual),
            },
            LLMError::QuotaExceeded { message, reset_at, limit } => ErrorView::QuotaExceeded {
                message: message@,
                reset_at: text::opt_text(reset_at),
                limit: limit,
            },
        }
    }
}

impl ErrorView {
    /// The error suggests trying again: a rate limit, a server error, a timeout, a failure of the
    /// provider or of the stream.
    pub open spec fn retryable(self) -> bool {
        match self {
            ErrorView::RateLimitError { .. } => true,
            ErrorView::HttpError { status_code, .. } => match status_code {
                Some(s) => 500 <= s <= 599,
                None => false,
            },
            ErrorView::TimeoutError { .. } => true,
            ErrorView::ProviderError { .. } => true,
            ErrorView::StreamingError { .. } => true,
            _ => false,
        }
    }

    /// The recommended delay before another try, in seconds.
    pub open spec fn retry_delay(self) -> Option<u64> {
        match self {
            ErrorView::RateLimitError { retry_after, .. } => retry_after,
            ErrorView::AuthenticationError { retry_after, .. } => retry_after,
            ErrorView::HttpError { status_code, .. } => if status_code == Some(429u16)
                || status_code == Some(500u16) || status_code == Some(502u16) || status_code == Some(
                503u16,
            ) || status_code == Some(504u16) {
                Some(1)
            } else {
                None
            },
            ErrorView::TimeoutError { timeout_secs, .. } => Some(timeout_secs),
            _ => None,
        }
    }

    /// The error as it is displayed.
    pub open spec fn displayed(self) -> Seq<char> {
        match self {
            ErrorView::AuthenticationError { message, .. } => "Authentication failed: "@ + message,
            ErrorView::RateLimitError { message, .. } => "Rate limit exceeded: "@ + message,
            ErrorView::ModelNotAvailable { model, .. } => "Model not available: "@ + model,
            ErrorView::InvalidRequestError { message, .. } => "Invalid request: "@ + message,
            ErrorView::HttpError { message, .. } => "HTTP error: "@ + message,
            ErrorView::TimeoutError { timeout_secs, .. } => "Request timeout after "@ + text::decimal(
                timeout_secs as nat,
            ) + " seconds"@,
            ErrorView::ProviderError { message, .. } => "Provider error: "@ + message,
            ErrorView::ConfigurationError { message, .. } => "Configuration error: "@ + message,
            ErrorView::SerializationError { message, .. } => "Serialization error: "@ + message,
            ErrorView::StreamingError { message, .. } => "Streaming error: "@ + message,
            ErrorView::ContentFilterError { reason, .. } => "Content moderation triggered: "@ + reason,
            ErrorView::UnsupportedError { operation, .. } => "Unsupported operation: "@ + operation,
            ErrorView::ContextLengthExceeded { message, .. } => "Context window exceeded: "@ + message,
            ErrorView::ResponseFormatError { message, .. } => "Unexpected response format: "@ + message,
            ErrorView::QuotaExceeded { message, .. } => "Quota exceeded: "@ + message,
        }
    }

    /// The error as a user reads it.
    pub open spec fn friendly(self) -> Seq<char> {
        match self {
            ErrorView::AuthenticationError { message, .. } => "Authentication failed: "@ + message + ". Please check your API key."@,
            ErrorView::RateLimitError { message, retry_after, .. } => match retry_after {
                Some(seconds) => "Rate limit exceeded. Please try again in "@ + text::decimal(
                    seconds as nat,
                ) + " seconds."@,
                None => "Rate limit exceeded: "@ + message,
            },
            ErrorView::ModelNotAvailable { model, .. } => "Model '"@ + model + "' is not available. Please try a different model."@,
            ErrorView::InvalidRequestError { message, .. } => "Invalid request: "@ + message,
            ErrorView::HttpError { message, .. } => "Network error: "@ + message,
            ErrorView::TimeoutError { .. } => "The request timed out. Please try again."@,
            ErrorView::ProviderError { message, .. } => "Provider error: "@ + message,
            ErrorView::ConfigurationError { message, .. } => "Configuration error: "@ + message,
            ErrorView::SerializationError { message, .. } => "Data error: "@ + message,
            ErrorView::StreamingError { message, .. } => "Streaming error: "@ + message,
            ErrorView::ContentFilterError { reason, .. } => "Content was filtered: "@ + reason,
            ErrorView::UnsupportedError { operation, .. } => "Operation '"@ + operation + "' is not supported."@,
            ErrorView::ContextLengthExceeded { message, .. } => "Context too long: "@ + message,
            ErrorView::ResponseFormatError { message, .. } => "Unexpected response: "@ + message,
            ErrorView::QuotaExceeded { message, .. } => "Quota exceeded: "@ + message,
        }
    }

    /// The category that the error belongs to.
    pub open spec fn category(self) -> ErrorCategory {
        match self {
            ErrorView::AuthenticationError { .. } => ErrorCategory::Authentication,
            ErrorView::RateLimitError { .. } => ErrorCategory::RateLimit,
            ErrorView::ModelNotAvailable { .. } => ErrorCategory::ModelNotAvailable,
            ErrorView::InvalidRequestError { .. } => ErrorCategory::InvalidRequest,
            ErrorView::HttpError { .. } => ErrorCategory::Network,
            ErrorView::TimeoutError { .. } => ErrorCategory::Network,
            ErrorView::ProviderError { .. } => ErrorCategory::Provider,
            ErrorView::ConfigurationError { .. } => ErrorCategory::Configuration,
            ErrorView::ContentFilterError { .. } => ErrorCategory::Content,
            ErrorView::UnsupportedError { .. } => ErrorCategory::Unsupported,
            ErrorView::QuotaExceeded { .. } => ErrorCategory::Quota,
            _ => ErrorCategory::Other,
        }
    }
}

impl LLMError {
    /// Whether this error suggests trying again.
    pub fn is_retryable(&self) -> (r: bool)
        ensures
            r == self@.retryable(),
    {
        match self {
            LLMError::RateLimitError { .. } => true,
            LLMError::HttpError { status_code, .. } => match status_code {
                Some(s) => 500 <= *s && *s <= 599,
                None => false,
            },
            LLMError::TimeoutError { .. } => true,
            LLMError::ProviderError { .. } => true,
            LLMError::StreamingError { .. } => true,
            _ => false,
        }
    }

    /// The recommended delay before another try, in seconds.
    pub fn retry_delay_secs(&self) -> (r: Option<u64>)
        ensures
            r == self@.retry_delay(),
    {
        match self {
            LLMError::RateLimitError { retry_after, .. } => *retry_after,
            LLMError::AuthenticationError { retry_after, .. } => *retry_after,
            LLMError::HttpError { status_code, .. } => match status_code {
                Some(s) => if *s == 429 || *s == 500 || *s == 502 || *s == 503 || *s == 504 {
                    Some(1)
                } else {
                    None
                },
                None => None,
            },
            LLMError::TimeoutError { timeout_secs, .. } => Some(*timeout_secs),
            _ => None,
        }
    }

    /// The error as it is displayed.
    pub fn display(&self) -> (r: String)
        ensures
            r@ == self@.displayed(),
    {
        match self {
            LLMError::AuthenticationError { message, .. } => text::cat("Authentication failed: ", message.as_str()),
            LLMError::RateLimitError { message, .. } => text::cat("Rate limit exceeded: ", message.as_str()),
            LLMError::ModelNotAvailable { model, .. } => text::cat("Model not available: ", model.as_str()),
            LLMError::InvalidRequestError { message, .. } => text::cat("Invalid request: ", message.as_str()),
            LLMError::HttpError { message, .. } => text::cat("HTTP error: ", message.as_str()),
            LLMError::TimeoutError { timeout_secs, .. } => text::cat3(
                "Request timeout after ",
                text::decimal_text(*timeout_secs).as_str(),
                " seconds",
            ),
            LLMError::ProviderError { message, .. } => text::cat("Provider error: ", message.as_str()),
            LLMError::ConfigurationError { message, .. } => text::cat("Configuration error: ", message.as_str()),
            LLMError::SerializationError { message, .. } => text::cat("Serialization error: ", message.as_str()),
            LLMError::StreamingError { message, .. } => text::cat("Streaming error: ", message.as_str()),
            LLMError::ContentFilterError { reason, .. } => text::cat("Content moderation triggered: ", reason.as_str()),
            LLMError::UnsupportedError { operation, .. } => text::cat("Unsupported operation: ", operation.as_str()),
            LLMError::ContextLengthExceeded { message, .. } => text::cat("Context window exceeded: ", message.as_str()),
            LLMError::ResponseFormatError { message, .. } => text::cat("Unexpected response format: ", message.as_str()),
            LLMError::QuotaExceeded { message, .. } => text::cat("Quota exceeded: ", message.as_str()),
        }
    }

    /// The error as a message for a user.
    pub fn user_message(&self) -> (r: String)
        ensures
            r@ == self@.friendly(),
    {
        match self {
            LLMError::AuthenticationError { message, .. } => text::cat3(
                "Authentication failed: ",
                message.as_str(),
                ". Please check your API key.",
            ),
            LLMError::RateLimitError { message, retry_after, .. } => match retry_after {
                Some(seconds) => text::cat3(
                    "Rate limit exceeded. Please try again in ",
                    text::decimal_text(*seconds).as_str(),
                    " seconds.",
                ),
                None => text::cat("Rate limit exceeded: ", message.as_str()),
            },
            LLMError::ModelNotAvailable { model, .. } => text::cat3(
                "Model '",
                model.as_str(),
                "' is not available. Please try a different model.",
            ),
            LLMError::InvalidRequestError { message, .. } => text::cat("Invalid request: ", message.as_str()),
            LLMError::HttpError { message, .. } => text::cat("Network error: ", message.as_str()),
            LLMError::TimeoutError { .. } => {
                "The request timed out. Please try again.".to_owned()
            },
            LLMError::ProviderError { message, .. } => text::cat("Provider error: ", message.as_str()),
            LLMError::ConfigurationError { message, .. } => text::cat("Configuration error: ", message.as_str()),
            LLMError::SerializationError { message, .. } => text::cat("Data error: ", message.as_str()),
            LLMError::StreamingError { message, .. } => text::cat("Streaming error: ", message.as_str()),
            LLMError::ContentFilterError { reason, .. } => text::cat("Content was filtered: ", reason.as_str()),
            LLMError::UnsupportedError { operation, .. } => text::cat3(
                "Operation '",
                operation.as_str(),
                "' is not supported.",
            ),
            LLMError::ContextLengthExceeded { message, .. } => text::cat("Context too long: ", message.as_str()),
            LLMError::ResponseFormatError { message, .. } => text::cat("Unexpected response: ", message.as_str()),
            LLMError::QuotaExceeded { message, .. } => text::cat("Quota exceeded: ", message.as_str()),
        }
    }
}

/// Categories of errors.
#[derive(Debug, Clone, Copy, PartialEq, Eq, Structural)]
pub enum ErrorCategory {
    Authentication,
    RateLimit,
    ModelNotAvailable,
    InvalidRequest,
    Network,
    Provider,
    Configuration,
    Content,
    Unsupported,
    Quota,
    Other,
}

impl From<&LLMError> for ErrorCategory {
    fn from(err: &LLMError) -> (r: ErrorCategory) {
        match err {
            LLMError::AuthenticationError { .. } => ErrorCategory::Authentication,
            LLMError::RateLimitError { .. } => ErrorCategory::RateLimit,
            LLMError::ModelNotAvailable { .. } => ErrorCategory::ModelNotAvailable,
            LLMError::InvalidRequestError { .. } => ErrorCategory::InvalidRequest,
            LLMError::HttpError { .. } => ErrorCategory::Network,
            LLMError::TimeoutError { .. } => ErrorCategory::Network,
            LLMError::ProviderError { .. } => ErrorCategory::Provider,
            LLMError::ConfigurationError { .. } => ErrorCategory::Configuration,
            LLMError::ContentFilterError { .. } => ErrorCategory::Content,
            LLMError::UnsupportedError { .. } => ErrorCategory::Unsupported,
            LLMError::QuotaExceeded { .. } => ErrorCategory::Quota,
            _ => ErrorCategory::Other,
        }
    }
}

impl vstd::std_specs::convert::FromSpecImpl<&LLMError> for ErrorCategory {
    open spec fn obeys_from_spec() -> bool {
        true
    }

    open spec fn from_spec(err: &LLMError) -> ErrorCategory {
        err@.category()
    }
}

/// An error of the configuration.
pub fn configuration_error(message: &str, field: &str) -> (r: LLMError)
    ensures
        r@ == (ErrorView::ConfigurationError { message: message@, field: Some(field@) }),
{
    LLMError::ConfigurationError { message: message.to_owned(), field: Some(field.to_owned()) }
}

/// An error suggests trying again if and only if it is a rate limit, a timeout, a failure of the
/// provider or of the stream, or an HTTP error whose status is one of the server's, from 500 to 599.
pub proof fn law_errors_to_retry(e: ErrorView)
    ensures
        match e {
            ErrorView::RateLimitError { .. } => e.retryable(),
            ErrorView::TimeoutError { .. } => e.retryable(),
            ErrorView::ProviderError { .. } => e.retryable(),
            ErrorView::StreamingError { .. } => e.retryable(),
            ErrorView::HttpError { status_code, .. } => e.retryable() <==> status_code is Some
                && 500 <= status_code->0 < 600,
            ErrorView::AuthenticationError { .. } => !e.retryable(),
            ErrorView::ModelNotAvailable { .. } => !e.retryable(),
            ErrorView::InvalidRequestError { .. } => !e.retryable(),
            ErrorView::ConfigurationError { .. } => !e.retryable(),
            ErrorView::SerializationError { .. } => !e.retryable(),
            ErrorView::ContentFilterError { .. } => !e.retryable(),
            ErrorView::UnsupportedError { .. } => !e.retryable(),
            ErrorView::ContextLengthExceeded { .. } => !e.retryable(),
            ErrorView::ResponseFormatError { .. } => !e.retryable(),
            ErrorView::QuotaExceeded { .. } => !e.retryable(),
        },
{
}

/// The delay before another try is the one that a rate limit or a refused key asks for, the time
/// that ran out, or one second after an HTTP error with status 429, 500, 502, 503 or 504. Every
/// other error asks for none.
pub proof fn law_delays(e: ErrorView)
    ensures
        match e {
            ErrorView::RateLimitError { retry_after, .. } => e.retry_delay() == retry_after,
            ErrorView::AuthenticationError { retry_after, .. } => e.retry_delay() == retry_after,
            ErrorView::TimeoutError { timeout_secs, .. } => e.retry_delay() == Some(timeout_secs),
            ErrorView::HttpError { status_code: Some(s), .. } => if s == 429 || s == 500 || s == 502
                || s == 503 || s == 504 {
                e.retry_delay() == Some(1u64)
            } else {
                e.retry_delay() is None
            },
            ErrorView::HttpError { status_code: None, .. } => e.retry_delay() is None,
            ErrorView::ModelNotAvailable { .. } => e.retry_delay() is None,
            ErrorView::InvalidRequestError { .. } => e.retry_delay() is None,
            ErrorView::ProviderError { .. } => e.retry_delay() is None,
            ErrorView::ConfigurationError { .. } => e.retry_delay() is None,
            ErrorView::SerializationError { .. } => e.retry_delay() is None,
            ErrorView::StreamingError { .. } => e.retry_delay() is None,
            ErrorView::ContentFilterError { .. } => e.retry_delay() is None,
            ErrorView::UnsupportedError { .. } => e.retry_delay() is None,
            ErrorView::ContextLengthExceeded { .. } => e.retry_delay() is None,
            ErrorView::ResponseFormatError { .. } => e.retry_delay() is None,
            ErrorView::QuotaExceeded { .. } => e.retry_delay() is None,
        },
{
}

/// Each error belongs to one category, whatever it says.
pub proof fn law_categories(e: ErrorView)
    ensures
        match e {
            ErrorView::AuthenticationError { .. } => e.category() == ErrorCategory::Authentication,
            ErrorView::RateLimitError { .. } => e.category() == ErrorCategory::RateLimit,
            ErrorView::ModelNotAvailable { .. } => e.category() == ErrorCategory::ModelNotAvailable,
            ErrorView::InvalidRequestError { .. } => e.category() == ErrorCategory::InvalidRequest,
            ErrorView::HttpError { .. } => e.category() == ErrorCategory::Network,
            ErrorView::TimeoutError { .. } => e.category() == ErrorCategory::Network,
            ErrorView::ProviderError { .. } => e.category() == ErrorCategory::Provider,
            ErrorView::ConfigurationError { .. } => e.category() == ErrorCategory::Configuration,
            ErrorView::SerializationError { .. } => e.category() == ErrorCategory::Other,
            ErrorView::StreamingError { .. } => e.category() == ErrorCategory::Other,
            ErrorView::ContentFilterError { .. } => e.category() == ErrorCategory::Content,
            ErrorView::UnsupportedError { .. } => e.category() == ErrorCategory::Unsupported,
            ErrorView::ContextLengthExceeded { .. } => e.category() == ErrorCategory::Other,
            ErrorView::ResponseFormatError { .. } => e.category() == ErrorCategory::Other,
            ErrorView::QuotaExceeded { .. } => e.category() == ErrorCategory::Quota,
        },
{
}

/// An error is displayed as what kind of error it is and all that it says.
pub proof fn law_displayed_errors(e: ErrorView)
    ensures
        match e {
            ErrorView::AuthenticationError { message, .. } => e.displayed()
                == "Authentication failed: "@ + message,
            ErrorView::RateLimitError { message, .. } => e.displayed()
                == "Rate limit exceeded: "@ + message,
            ErrorView::ModelNotAvailable { model, .. } => e.displayed()
                == "Model not available: "@ + model,
            ErrorView::InvalidRequestError { message, .. } => e.displayed()
                == "Invalid request: "@ + message,
            ErrorView::HttpError { message, .. } => e.displayed() == "HTTP error: "@ + message,
            ErrorView::ProviderError { message, .. } => e.displayed()
                == "Provider error: "@ + message,
            ErrorView::ConfigurationError { message, .. } => e.displayed()
                == "Configuration error: "@ + message,
            ErrorView::SerializationError { message, .. } => e.displayed()
                == "Serialization error: "@ + message,
            ErrorView::StreamingError { message, .. } => e.displayed()
                == "Streaming error: "@ + message,
            ErrorView::ContentFilterError { reason, .. } => e.displayed()
                == "Content moderation triggered: "@ + reason,
            ErrorView::UnsupportedError { operation, .. } => e.displayed()
                == "Unsupported operation: "@ + operation,
            ErrorView::ContextLengthExceeded { message, .. } => e.displayed()
                == "Context window exceeded: "@ + message,
            ErrorView::ResponseFormatError { message, .. } => e.displayed()
                == "Unexpected response format: "@ + message,
            ErrorView::QuotaExceeded { message, .. } => e.displayed()
                == "Quota exceeded: "@ + message,
            ErrorView::TimeoutError { timeout_secs, .. } => e.displayed()
                == "Request timeout after "@ + text::decimal(timeout_secs as nat) + " seconds"@,
        },
{
}

/// An error is told to a user as what happened and what it says, with what to do about it where
/// that is known.
pub proof fn law_friendly_errors(e: ErrorView)
    ensures
        match e {
            ErrorView::AuthenticationError { message, .. } => e.friendly()
                == "Authentication failed: "@ + message + ". Please check your API key."@,
            ErrorView::ModelNotAvailable { model, .. } => e.friendly()
                == "Model '"@ + model + "' is not available. Please try a different model."@,
            ErrorView::InvalidRequestError { message, .. } => e.friendly()
                == "Invalid request: "@ + message,
            ErrorView::HttpError { message, .. } => e.friendly() == "Network error: "@ + message,
            ErrorView::ProviderError { message, .. } => e.friendly()
                == "Provider error: "@ + message,
            ErrorView::ConfigurationError { message, .. } => e.friendly()
                == "Configuration error: "@ + message,
            ErrorView::SerializationError { message, .. } => e.friendly()
                == "Data error: "@ + message,
            ErrorView::StreamingError { message, .. } => e.friendly()
                == "Streaming error: "@ + message,
            ErrorView::ContentFilterError { reason, .. } => e.friendly()
                == "Content was filtered: "@ + reason,
            ErrorView::UnsupportedError { operation, .. } => e.friendly()
                == "Operation '"@ + operation + "' is not supported."@,
            ErrorView::ContextLengthExceeded { message, .. } => e.friendly()
                == "Context too long: "@ + message,
            ErrorView::ResponseFormatError { message, .. } => e.friendly()
                == "Unexpected response: "@ + message,
            ErrorView::QuotaExceeded { message, .. } => e.friendly()
                == "Quota exceeded: "@ + message,
            ErrorView::RateLimitError { retry_after: Some(seconds), .. } => e.friendly()
                == "Rate limit exceeded. Please try again in "@ + text::decimal(seconds as nat)
                + " seconds."@,
            ErrorView::RateLimitError { message, retry_after: None, .. } => e.friendly()
                == "Rate limit exceeded: "@ + message,
            ErrorView::TimeoutError { .. } => e.friendly()
                == "The request timed out. Please try again."@,
        },
{
}

/// An error is seen with all that it says.
pub proof fn law_errors_as_seen(e: LLMError)
    ensures
        match e {
            LLMError::AuthenticationError { message, retry_after } =>
                e@ matches ErrorView::AuthenticationError { message: message_seen,
                retry_after: retry_after_seen } && message_seen == message@
                && retry_after_seen == retry_after,
            LLMError::RateLimitError { message, retry_after, limit } =>
                e@ matches ErrorView::RateLimitError { message: message_seen,
                retry_after: retry_after_seen, limit: limit_seen } && message_seen == message@
                && retry_after_seen == retry_after
                && limit_seen == limit,
            LLMError::ModelNotAvailable { model, available_models } =>
                e@ matches ErrorView::ModelNotAvailable { model: model_seen,
                available_models: available_models_seen } && model_seen == model@
                && available_models_seen.len() == available_models@.len()
                    && (forall|i: int| 0 <= i < available_models@.len()
                    ==> available_models_seen[i] == (#[trigger] available_models@[i])@),
            LLMError::InvalidRequestError { message, param, code } =>
                e@ matches ErrorView::InvalidRequestError { message: message_seen,
                param: param_seen, code: code_seen } && message_seen == message@
                && (match param { Some(s) => param_seen == Some(s@), None => param_seen is None })
                && code_seen == code,
            LLMError::HttpError { message, status_code, body } =>
                e@ matches ErrorView::HttpError { message: message_seen,
                status_code: status_code_seen, body: body_seen } && message_seen == message@
                && status_code_seen == status_code
                && (match body { Some(s) => body_seen == Some(s@), None => body_seen is None }),
            LLMError::TimeoutError { timeout_secs, message } =>
                e@ matches ErrorView::TimeoutError { timeout_secs: timeout_secs_seen,
                message: message_seen } && timeout_secs_seen == timeout_secs
                && (match message { Some(s) => message_seen == Some(s@), None =>
                    message_seen is None }),
            LLMError::ProviderError { provider, message, code } =>
                e@ matches ErrorView::ProviderError { provider: provider_seen,
                message: message_seen, code: code_seen } && provider_seen == provider@
                && message_seen == message@
                && (match code { Some(s) => code_seen == Some(s@), None => code_seen is None }),
            LLMError::ConfigurationError { message, field } =>
                e@ matches ErrorView::ConfigurationError { message: message_seen,
                field: field_seen } && message_seen == message@
                && (match field { Some(s) => field_seen == Some(s@), None => field_seen is None }),
            LLMError::SerializationError { message, context } =>
                e@ matches ErrorView::SerializationError { message: message_seen,
                context: context_seen } && message_seen == message@
                && (match context { Some(s) => context_seen == Some(s@), None =>
                    context_seen is None }),
            LLMError::StreamingError { message, bytes_received } =>
                e@ matches ErrorView::StreamingError { message: message_seen,
                bytes_received: bytes_received_seen } && message_seen == message@
                && bytes_received_seen == bytes_received,
            LLMError::ContentFilterError { reason, flagged_categories } =>
                e@ matches ErrorView::ContentFilterError { reason: reason_seen,
                flagged_categories: flagged_categories_seen } && reason_seen == reason@
                && (match flagged_categories { Some(v) => flagged_categories_seen is Some
                    && flagged_categories_seen->0.len() == v@.len()
                    && (forall|i: int| 0 <= i < v@.len() ==> flagged_categories_seen->0[i]
                    == (#[trigger] v@[i])@), None => flagged_categories_seen is None }),
            LLMError::UnsupportedError { operation, provider, model } =>
                e@ matches ErrorView::UnsupportedError { operation: operation_seen,
                provider: provider_seen, model: model_seen } && operation_seen == operation@
                && (match provider { Some(s) => provider_seen == Some(s@), None =>
                    provider_seen is None })
                && (match model { Some(s) => model_seen == Some(s@), None => model_seen is None }),
            LLMError::ContextLengthExceeded { message, max_tokens, requested_tokens } =>
                e@ matches ErrorView::ContextLengthExceeded { message: message_seen,
                max_tokens: max_tokens_seen, requested_tokens: requested_tokens_seen }
                && message_seen == message@
                && max_tokens_seen == max_tokens
                && requested_tokens_seen == requested_tokens,
            LLMError::ResponseFormatError { message, expected, actual } =>
                e@ matches ErrorView::ResponseFormatError { message: message_seen,
                expected: expected_seen, actual: actual_seen } && message_seen == message@
                && (match expected { Some(s) => expected_seen == Some(s@), None =>
                    expected_seen is None })
                && (match actual { Some(s) => actual_seen == Some(s@), None =>
                    actual_seen is None }),
            LLMError::QuotaExceeded { message, reset_at, limit } =>
                e@ matches ErrorView::QuotaExceeded { message: message_seen,
                reset_at: reset_at_seen, limit: limit_seen } && message_seen == message@
                && (match reset_at { Some(s) => reset_at_seen == Some(s@), None =>
                    reset_at_seen is None })
                && limit_seen == limit,
        },
{
}

/// The category that an error is turned into is the one that it belongs to.
pub proof fn law_errors_become_categories(e: LLMError)
    ensures
        <ErrorCategory as vstd::std_specs::convert::FromSpec<&LLMError>>::from_spec(&e)
            == e@.category(),
{
}

} // verus!
