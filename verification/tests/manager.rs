use vincents_llm::config::ProviderConfig;
use vincents_llm::cost_tracker::CostEstimate;
use vincents_llm::error::LLMError;
use vincents_llm::provider::{
    get_full_model_info, list_models, streaming_unsupported, LLMProvider, ProviderFactory,
    ProviderRegistry,
};
use vincents_llm::provider_manager::{
    CircuitBreakerState, FailoverStep, ProviderManager, ProviderManagerConfig,
};
use vincents_llm::rate_limiter::RateLimitStatus;
use vincents_llm::types::{ChatCompletionRequest, ModelCapabilities, ModelPricing};

const SECOND: u64 = 1_000_000_000;

struct Fake {
    name: &'static str,
    models: Vec<&'static str>,
    broken: bool,
}

impl LLMProvider for Fake {
    fn name(&self) -> &str {
        self.name
    }

    fn supported_models(&self) -> Vec<String> {
        self.models.iter().map(|m| m.to_string()).collect()
    }

    fn get_model_pricing(&self, _model: &str) -> Option<ModelPricing> {
        None
    }

    fn get_model_capabilities(&self, model: &str) -> Option<ModelCapabilities> {
        if model == "a" {
            let mut capabilities = ModelCapabilities::default();
            capabilities.vision = true;
            Some(capabilities)
        } else {
            None
        }
    }

    fn supports_function_calling(&self, _model: &str) -> bool {
        false
    }

    fn rate_limit_status(&self) -> Result<RateLimitStatus, LLMError> {
        if self.broken {
            Err(rate_limited())
        } else {
            let mut status = RateLimitStatus::unknown();
            status.remaining = Some(5);
            status.limit = Some(9);
            Ok(status)
        }
    }

    fn estimate_cost(&self, _request: &ChatCompletionRequest) -> Result<CostEstimate, LLMError> {
        Err(rate_limited())
    }
}

fn fake(name: &'static str, models: Vec<&'static str>) -> Fake {
    Fake { name, models, broken: false }
}

fn rate_limited() -> LLMError {
    LLMError::RateLimitError { message: "slow".to_string(), retry_after: None, limit: None }
}

fn config(default: &str, failover_enabled: bool) -> ProviderManagerConfig {
    ProviderManagerConfig {
        default_provider: default.to_string(),
        failover_enabled,
        health_check_interval_sec: 60,
        circuit_breaker_threshold: 2,
        circuit_breaker_timeout_sec: 30,
    }
}

fn three(failover_enabled: bool) -> ProviderManager<Fake> {
    let mut manager = ProviderManager::new(config("third", failover_enabled));
    manager.register_provider(fake("first", vec!["a", "b"]));
    manager.register_provider(fake("second", vec!["b"]));
    manager.register_provider(fake("third", vec!["a", "c"]));
    manager
}

#[test]
fn registered_providers_are_found() {
    let manager = three(true);
    assert_eq!(manager.provider_names(), vec!["first", "second", "third"]);
    assert_eq!(manager.get_provider("second").unwrap().name(), "second");
    assert!(manager.get_provider("fourth").is_none());
    assert_eq!(manager.get_default_provider().unwrap().name(), "third");
}

#[test]
fn selection_prefers_the_default() {
    let mut manager = three(true);
    assert_eq!(manager.select_provider("a", 0).unwrap().name(), "third");
    assert_eq!(manager.select_provider("b", 0).unwrap().name(), "first");
    manager.record_error("third", 0);
    manager.record_error("third", 0);
    assert!(!manager.is_provider_available("third", SECOND));
    assert_eq!(manager.select_provider("a", SECOND).unwrap().name(), "first");
    // Nothing else supports this model.
    assert_eq!(manager.select_provider("c", SECOND).unwrap().name(), "third");
    match manager.select_provider("d", 0) {
        Err(LLMError::ModelNotAvailable { model, available_models }) => {
            assert_eq!(model, "d");
            assert_eq!(available_models, vec!["a", "b", "b", "a", "c"]);
        }
        _ => panic!("no provider supports the model"),
    }
}

#[test]
fn failover_tries_each_supporting_provider_once() {
    let mut manager = three(true);
    let mut run = manager.start_failover("b");
    let first = manager.next_candidate(&mut run, 0).unwrap();
    assert_eq!(first, "first");
    assert!(manager.can_record(&first));
    assert!(matches!(
        manager.after_failure(&first, rate_limited(), 0),
        FailoverStep::TryNext
    ));
    assert_eq!(manager.next_candidate(&mut run, 0).unwrap(), "second");
    assert!(manager.next_candidate(&mut run, 0).is_none());
    match ProviderManager::<Fake>::exhausted() {
        LLMError::ProviderError { provider, message, code } => {
            assert_eq!(provider, "all");
            assert_eq!(message, "All providers failed");
            assert!(code.is_none());
        }
        _ => panic!("all providers failed"),
    }
}

#[test]
fn failover_skips_open_breakers() {
    let mut manager = three(true);
    manager.record_error("first", 0);
    manager.record_error("first", 0);
    let mut run = manager.start_failover("b");
    assert_eq!(manager.next_candidate(&mut run, 0).unwrap(), "second");
    let mut later = manager.start_failover("b");
    assert_eq!(manager.next_candidate(&mut later, 30 * SECOND + 1).unwrap(), "first");
}

#[test]
fn other_errors_are_given_back() {
    let mut manager = three(true);
    let error = LLMError::ConfigurationError { message: "x".to_string(), field: None };
    match manager.after_failure("first", error.clone(), 0) {
        FailoverStep::GiveUp(e) => assert_eq!(e, error),
        FailoverStep::TryNext => panic!("no other provider is tried"),
    }
    let mut strict = three(false);
    match strict.after_failure("first", rate_limited(), 0) {
        FailoverStep::GiveUp(e) => assert_eq!(e, rate_limited()),
        FailoverStep::TryNext => panic!("failover is off"),
    }
}

#[test]
fn breakers_open_and_close() {
    let mut breaker = CircuitBreakerState::new(2);
    assert!(!breaker.is_open(0));
    breaker.record_failure(10);
    assert!(!breaker.is_open(10));
    breaker.record_failure(20);
    assert!(breaker.is_open(20));
    assert!(breaker.is_open(20 + 30 * SECOND));
    assert!(!breaker.is_open(21 + 30 * SECOND));
    breaker.record_failure(21 + 30 * SECOND);
    assert!(breaker.is_open(22 + 30 * SECOND));
    assert!(breaker.can_record());
}

#[test]
fn health_of_all_providers() {
    let mut manager = three(true);
    manager.register_provider(Fake { name: "second", models: vec![], broken: true });
    let status = manager.health_status();
    assert_eq!(status.len(), 3);
    let first = status.get("first").unwrap();
    assert!(first.healthy);
    assert_eq!(first.rate_limit_remaining, Some(5));
    assert_eq!(first.rate_limit_total, Some(9));
    let second = status.get("second").unwrap();
    assert!(!second.healthy);
    assert_eq!(second.name, "second");
    assert_eq!(second.error, Some("Rate limit exceeded: slow".to_string()));
}

#[test]
fn what_providers_say_of_models() {
    let provider = fake("p", vec!["a", "b"]);
    assert_eq!(provider.display_name(), "p");
    assert!(provider.supports_model("a"));
    assert!(!provider.supports_model("c"));
    let info = provider.get_model_info("b").unwrap();
    assert_eq!(info.id, "b");
    assert_eq!(info.object, "model");
    assert_eq!(info.owned_by, "p");
    assert!(provider.get_model_info("c").is_none());
    assert!(provider.validate_config().is_ok());
    let models = list_models(&provider);
    assert_eq!(models.len(), 2);
    assert!(models[0].capabilities.vision);
    assert!(!models[1].capabilities.vision);
    assert_eq!(models[1].name, "b");
    assert!(models[1].available);
    assert_eq!(get_full_model_info(models, "b").unwrap().provider, "p");
}

struct Maker(&'static str);

impl ProviderFactory for Maker {
    type Product = String;

    fn provider_type(&self) -> &str {
        self.0
    }

    fn create(&self, config: &ProviderConfig) -> Result<String, LLMError> {
        Ok(format!("{} {}", self.0, config.name))
    }

    fn default_config(&self) -> ProviderConfig {
        ProviderConfig::default()
    }
}

#[test]
fn registry_of_factories() {
    let mut registry: ProviderRegistry<Maker> = ProviderRegistry::new();
    registry.register(Maker("x"));
    registry.register(Maker("y"));
    registry.register(Maker("x"));
    assert!(registry.is_registered("x"));
    assert!(!registry.is_registered("z"));
    assert_eq!(registry.registered_types(), vec!["x", "y"]);
    let mut config = ProviderConfig::default();
    config.name = "n".to_string();
    assert_eq!(registry.create("y", &config).unwrap(), "y n");
    match registry.create("z", &config) {
        Err(LLMError::ConfigurationError { message, field }) => {
            assert_eq!(message, "Unknown provider type: z");
            assert_eq!(field, Some("provider_type".to_string()));
        }
        _ => panic!("no factory makes this type"),
    }
}

#[test]
fn providers_that_cannot_stream_say_so() {
    assert_eq!(
        streaming_unsupported("p"),
        LLMError::UnsupportedError {
            operation: "streaming".to_string(),
            provider: Some("p".to_string()),
            model: None,
        }
    );
}
