//! Configuration of providers and of the application.

use crate::json::{JsonObject, JsonView};
use crate::str_map::StrMap;
use vstd::prelude::*;

verus! {

/// Rate limit configuration.
#[derive(Debug, Clone, Copy, PartialEq, Eq, Structural)]
pub struct RateLimitConfig {
    /// Requests per minute.
    pub requests_per_minute: u64,
    /// Tokens per minute.
    pub tokens_per_minute: u64,
    /// Requests per day.
    pub requests_per_day: Option<u64>,
}

/// Provider configuration.
#[derive(Debug)]
pub struct ProviderConfig {
    /// Provider type, such as `openai`.
    pub provider_type: String,
    /// Provider name, for display.
    pub name: String,
    /// API key, or the name of an environment variable that holds it.
    pub api_key: Option<String>,
    /// Base URL of the API.
    pub base_url: Option<String>,
    /// Organization.
    pub organization_id: Option<String>,
    /// Default model.
    pub default_model: Option<String>,
    /// Timeout in seconds.
    pub timeout_secs: u64,
    /// Rate limits.
    pub rate_limits: Option<RateLimitConfig>,
    /// Extra parameters.
    pub extra_params: JsonObject,
}

impl Default for ProviderConfig {
    fn default() -> (r: ProviderConfig)
        ensures
            r.provider_type@ == Seq::<char>::empty(),
            r.name@ == Seq::<char>::empty(),
            r.api_key is None,
            r.base_url is None,
            r.organization_id is None,
            r.default_model is None,
            r.timeout_secs == 60,
            r.rate_limits is None,
            r.extra_params@ == Map::<Seq<char>, JsonView>::empty(),
    {
        ProviderConfig {
            provider_type: String::new(),
            name: String::new(),
            api_key: None,
            base_url: None,
            organization_id: None,
            default_model: None,
            timeout_secs: 60,
            rate_limits: None,
            extra_params: JsonObject::new(),
        }
    }
}

/// Global settings.
#[derive(Debug, Clone, Copy, PartialEq, Eq, Structural)]
pub struct GlobalLLMSettings {
    /// Whether costs are tracked.
    pub cost_tracking: bool,
    /// Whether rates are limited.
    pub rate_limiting: bool,
    /// Whether another provider is tried when one fails.
    pub failover_enabled: bool,
    /// Maximum retries per request.
    pub max_retries: u32,
    /// Default timeout in seconds.
    pub default_timeout_secs: u64,
    /// Whether responses may be streamed.
    pub streaming_enabled: bool,
    /// Maximum number of concurrent requests.
    pub max_concurrent_requests: u32,
}

/// The global settings that hold where none are given.
pub open spec fn default_settings() -> GlobalLLMSettings {
    GlobalLLMSettings {
        cost_tracking: true,
        rate_limiting: true,
        failover_enabled: true,
        max_retries: 3,
        default_timeout_secs: 60,
        streaming_enabled: true,
        max_concurrent_requests: 10,
    }
}

impl Default for GlobalLLMSettings {
    fn default() -> (r: GlobalLLMSettings)
        ensures
            r == default_settings(),
    {
        GlobalLLMSettings {
            cost_tracking: true,
            rate_limiting: true,
            failover_enabled: true,
            max_retries: 3,
            default_timeout_secs: 60,
            streaming_enabled: true,
            max_concurrent_requests: 10,
        }
    }
}

/// Configuration of the application.
#[derive(Debug)]
pub struct LLMConfig {
    /// Default provider.
    pub default_provider: String,
    /// Configurations of the providers.
    pub providers: StrMap<ProviderConfig>,
    /// Global settings.
    pub global: GlobalLLMSettings,
}

impl Default for LLMConfig {
    fn default() -> (r: LLMConfig)
        ensures
            r.default_provider@ == "openai"@,
            r.providers.wf(),
            r.providers@ == Map::<Seq<char>, ProviderConfig>::empty(),
            r.global == default_settings(),
    {
        let providers: StrMap<ProviderConfig> = StrMap::new();
        proof {
            use_type_invariant(&providers);
        }
        LLMConfig {
            default_provider: "openai".to_owned(),
            providers,
            global: GlobalLLMSettings::default(),
        }
    }
}

/// Provider-specific settings.
#[derive(Debug, Clone)]
pub enum ProviderSettings {
    OpenAI(OpenAISettings),
    Anthropic(AnthropicSettings),
    Gemini(GeminiSettings),
    Ollama(OllamaSettings),
    Custom(CustomProviderSettings),
}

/// Settings of OpenAI.
#[derive(Debug, Clone)]
pub struct OpenAISettings {
    /// Base URL of the API.
    pub base_url: Option<String>,
    /// Organization.
    pub organization_id: Option<String>,
    /// Project.
    pub project_id: Option<String>,
}

/// Settings of Anthropic.
#[derive(Debug, Clone)]
pub struct AnthropicSettings {
    /// Base URL of the API.
    pub base_url: Option<String>,
    /// API version.
    pub api_version: Option<String>,
}

/// Settings of Gemini.
#[derive(Debug, Clone)]
pub struct GeminiSettings {
    /// Base URL of the API.
    pub base_url: Option<String>,
    /// Project.
    pub project_id: Option<String>,
    /// Region.
    pub region: Option<String>,
}

/// Settings of Ollama.
#[derive(Debug, Clone)]
pub struct OllamaSettings {
    /// URL of the server.
    pub base_url: String,
    /// Model to use.
    pub default_model: String,
    /// Timeout in seconds.
    pub timeout_secs: u64,
}

/// Settings of a custom provider.
#[derive(Debug, Clone)]
pub struct CustomProviderSettings {
    /// API type.
    pub api_type: String,
    /// Base URL of the API.
    pub base_url: String,
    /// API version.
    pub api_version: Option<String>,
}

/// Where nothing else is said, costs are tracked, rates are limited, other providers are tried,
/// responses may be streamed, and there are three retries, sixty seconds and ten requests at once.
pub proof fn law_default_settings()
    ensures
        ({
            let s = default_settings();
            &&& s.cost_tracking && s.rate_limiting && s.failover_enabled && s.streaming_enabled
            &&& s.max_retries == 3
            &&& s.default_timeout_secs == 60
            &&& s.max_concurrent_requests == 10
        }),
{
}

} // verus!
