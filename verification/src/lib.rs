//! Multi-provider LLM abstraction.
//!
//! One interface to OpenAI, Anthropic, Gemini, Ollama and OpenRouter. The library builds the
//! requests as data and reads the answers; sending them is left to the application, as are clock
//! readings and floating-point arithmetic.

pub mod anthropic;
pub mod catalogue;
pub mod config;
pub mod cost_tracker;
pub mod error;
pub mod gemini;
pub mod http;
pub mod json;
pub mod ollama;
pub mod openai;
pub mod openrouter;
pub mod outside;
pub mod provider;
pub mod provider_manager;
pub mod rate_limiter;
pub mod str_map;
pub mod streaming;
pub mod telemetry;
pub mod text;
pub mod token_counter;
pub mod types;
pub mod wire;

pub use anthropic::AnthropicProvider;
pub use config::{LLMConfig, ProviderConfig};
pub use cost_tracker::{CostEstimate, CostTracker};
pub use error::LLMError;
pub use gemini::GeminiProvider;
pub use ollama::OllamaProvider;
pub use openai::OpenAIProvider;
pub use openrouter::OpenRouterProvider;
pub use provider::{LLMProvider, ProviderHealth, ProviderRegistry};
pub use provider_manager::ProviderManager;
pub use rate_limiter::{RateLimitStatus, RateLimiter, RetryConfig, RetryPolicy, RetryStrategy};
pub use telemetry::{
    LlmTelemetryAttributes, LlmTelemetryRecorder, NoopTelemetryRecorder, TelemetrySpan,
    TracingTelemetryRecorder,
};
pub use token_counter::{TokenCount, TokenCounter, TokenCounterConfig, TokenCountingError};
pub use types::{
    ChatCompletionRequest, ChatCompletionResponse, ChatMessage, Choice, ChoiceDelta, Chunk,
    ChunkCompletion, CodeInterpreterCall, CustomFunctionCall, FullModelInfo, FunctionCall,
    FunctionDefinition, LogProbResponse, MessageRole, ModelCapabilities, ModelInfo, ModelPricing,
    ModelVariant, RetrievalCall, SortOrder, TokenLogProb, ToolCall, ToolCallDelta, Usage,
};
