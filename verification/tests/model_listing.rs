use vincents_llm::anthropic::AnthropicProvider;
use vincents_llm::catalogue::ModelFamily;
use vincents_llm::http::HttpFailure;
use vincents_llm::ollama::{OllamaConfig, OllamaProvider, TagsOutcome};
use vincents_llm::openai::OpenAIProvider;

fn family() -> ModelFamily {
    ModelFamily { id: "sonata".to_string(), title: "Sonata".to_string() }
}

/// Dollars per thousand tokens.
fn per_thousand(billionths: u64) -> f64 {
    billionths as f64 / 1_000_000_000.0
}

#[test]
fn test_anthropic_list_models() {
    let provider = AnthropicProvider::new("test-key", family())
        .expect("Should create Anthropic provider");

    let models = provider
        .list_models()
        .expect("Should list models");

    assert!(!models.is_empty(), "Anthropic should have at least one model");

    // Verify the latest model
    let sonnet = models
        .iter()
        .find(|m| m.id == "sonata-3-5-sonnet-20241022")
        .expect("Should have Sonata 3.5 Sonnet");

    assert_eq!(sonnet.name, "Sonata 3.5 Sonnet");
    assert_eq!(sonnet.context_window, 200000);
    assert!(sonnet.capabilities.vision);
    assert!(sonnet.capabilities.function_calling);
    assert!(sonnet.capabilities.caching);

    let pricing = sonnet.pricing.as_ref().expect("Should have pricing");
    assert_eq!(per_thousand(pricing.prompt_tokens), 0.003);
    assert_eq!(per_thousand(pricing.completion_tokens), 0.015);
}

#[test]
fn test_anthropic_claude_opus() {
    let provider = AnthropicProvider::new("test-key", family())
        .expect("Should create Anthropic provider");

    let models = provider.list_models().expect("Should list models");

    let opus = models
        .iter()
        .find(|m| m.id == "sonata-3-opus-20240229")
        .expect("Should have Sonata 3 Opus");

    assert_eq!(opus.name, "Sonata 3 Opus");
    assert_eq!(opus.context_window, 200000);

    let pricing = opus.pricing.as_ref().expect("Should have pricing");
    assert_eq!(per_thousand(pricing.prompt_tokens), 0.015);
    assert_eq!(per_thousand(pricing.completion_tokens), 0.075);
}

#[test]
fn test_anthropic_claude_haiku() {
    let provider = AnthropicProvider::new("test-key", family())
        .expect("Should create Anthropic provider");

    let models = provider.list_models().expect("Should list models");

    let haiku = models
        .iter()
        .find(|m| m.id == "sonata-3-haiku-20240307")
        .expect("Should have Sonata 3 Haiku");

    assert_eq!(haiku.name, "Sonata 3 Haiku");
    assert_eq!(haiku.context_window, 200000);
    assert!(!haiku.capabilities.caching, "Haiku should not support caching");

    let pricing = haiku.pricing.as_ref().expect("Should have pricing");
    assert!(per_thousand(pricing.prompt_tokens) < 0.001);
    assert!(per_thousand(pricing.completion_tokens) < 0.01);
}

#[test]
fn test_openai_list_models() {
    let provider = OpenAIProvider::new("test-key")
        .expect("Should create OpenAI provider");

    let models = provider
        .list_models()
        .expect("Should list models");

    assert!(!models.is_empty(), "OpenAI should have at least one model");

    // Verify GPT-4
    let gpt4 = models
        .iter()
        .find(|m| m.id == "gpt-4")
        .expect("Should have GPT-4");

    assert_eq!(gpt4.name, "GPT-4");
    assert_eq!(gpt4.context_window, 8192);
    assert!(gpt4.capabilities.vision);
    assert!(gpt4.capabilities.function_calling);
}

#[test]
fn test_openai_gpt4_turbo() {
    let provider = OpenAIProvider::new("test-key")
        .expect("Should create OpenAI provider");

    let models = provider.list_models().expect("Should list models");

    let turbo = models
        .iter()
        .find(|m| m.id == "gpt-4-turbo")
        .expect("Should have GPT-4 Turbo");

    assert_eq!(turbo.name, "GPT-4 Turbo");
    assert_eq!(turbo.context_window, 128000);
    assert!(turbo.capabilities.vision);
    assert!(turbo.capabilities.caching);
}

#[test]
fn test_openai_gpt35_turbo() {
    let provider = OpenAIProvider::new("test-key")
        .expect("Should create OpenAI provider");

    let models = provider.list_models().expect("Should list models");

    let gpt35 = models
        .iter()
        .find(|m| m.id == "gpt-3.5-turbo")
        .expect("Should have GPT-3.5 Turbo");

    assert_eq!(gpt35.name, "GPT-3.5 Turbo");
    assert_eq!(gpt35.context_window, 4096);
    assert!(!gpt35.capabilities.vision, "GPT-3.5 should not support vision");
    assert!(gpt35.capabilities.function_calling);

    let pricing = gpt35.pricing.as_ref().expect("Should have pricing");
    assert_eq!(per_thousand(pricing.prompt_tokens), 0.0005);
    assert_eq!(per_thousand(pricing.completion_tokens), 0.0015);
}

#[test]
fn test_ollama_list_models() {
    let config = OllamaConfig {
        host: "http://localhost:11434".to_string(),
        default_model: Some("llama3.1:8b".to_string()),
    };

    let provider = OllamaProvider::with_config(config)
        .expect("Should create Ollama provider");

    // No server answers.
    let models = provider.list_models_response(TagsOutcome::Failed {
        failure: HttpFailure::Unsent { message: "connection refused".to_string() },
    });

    // Just verify the function exists and returns a result
    assert!(models.is_ok() || models.is_err(), "Should return a result");
}

#[test]
fn test_model_info_includes_all_required_fields() {
    let provider = AnthropicProvider::new("test-key", family())
        .expect("Should create provider");

    let models = provider.list_models().expect("Should list models");

    for model in models {
        assert!(!model.id.is_empty(), "Model id should not be empty");
        assert!(!model.name.is_empty(), "Model name should not be empty");
        assert_eq!(model.provider, "anthropic");
        assert!(model.context_window > 0, "Context window should be positive");
        assert!(model.pricing.is_some(), "Pricing should be present");

        if let Some(pricing) = model.pricing {
            assert!(per_thousand(pricing.prompt_tokens) > 0.0 || per_thousand(pricing.prompt_tokens) == 0.0,
                    "Pricing should be valid");
            assert!(per_thousand(pricing.completion_tokens) > 0.0 || per_thousand(pricing.completion_tokens) == 0.0,
                    "Pricing should be valid");
        }
    }
}

#[test]
fn test_model_capabilities_structure() {
    let provider = OpenAIProvider::new("test-key")
        .expect("Should create provider");

    let models = provider.list_models().expect("Should list models");

    for model in models {
        // Capabilities should always be present
        let caps = &model.capabilities;

        // These are boolean fields, so they should be validly initialized
        let _ = caps.vision;
        let _ = caps.function_calling;
        let _ = caps.streaming;
        let _ = caps.json_mode;
        let _ = caps.caching;
    }
}

#[test]
fn test_anthropic_models_sorted_by_price() {
    let provider = AnthropicProvider::new("test-key", family())
        .expect("Should create provider");

    let mut models = provider.list_models().expect("Should list models");

    // Sort by prompt token cost
    models.sort_by(|a, b| {
        let a_cost = a.pricing.as_ref().map(|p| per_thousand(p.prompt_tokens)).unwrap_or(0.0);
        let b_cost = b.pricing.as_ref().map(|p| per_thousand(p.prompt_tokens)).unwrap_or(0.0);
        a_cost.partial_cmp(&b_cost).unwrap_or(std::cmp::Ordering::Equal)
    });

    // Haiku should be cheapest
    assert_eq!(models.first().map(|m| m.id.as_str()), Some("sonata-3-haiku-20240307"));

    // Opus should be most expensive
    assert_eq!(models.last().map(|m| m.id.as_str()), Some("sonata-3-opus-20240229"));
}

#[test]
fn test_openai_models_by_context_window() {
    let provider = OpenAIProvider::new("test-key")
        .expect("Should create provider");

    let mut models = provider.list_models().expect("Should list models");

    // Sort by context window descending
    models.sort_by(|a, b| b.context_window.cmp(&a.context_window));

    // GPT-4-turbo has the largest context
    assert!(models[0].context_window >= 128000);

    // GPT-3.5-turbo has the smallest context
    assert!(models.last().map(|m| m.context_window).unwrap_or(0) <= 4096);
}

#[test]
fn test_model_availability_flag() {
    let provider = AnthropicProvider::new("test-key", family())
        .expect("Should create provider");

    let models = provider.list_models().expect("Should list models");

    // All returned models should be available
    for model in models {
        assert!(model.available, "All returned models should be marked as available");
    }
}

#[test]
fn test_get_full_model_info_async() {
    let provider = AnthropicProvider::new("test-key", family())
        .expect("Should create provider");

    let model_opt = provider
        .get_full_model_info("sonata-3-5-sonnet-20241022")
        .expect("Should not error");

    assert!(model_opt.is_some(), "Should find model");

    let model = model_opt.unwrap();
    assert_eq!(model.name, "Sonata 3.5 Sonnet");
    assert_eq!(model.context_window, 200000);
}

#[test]
fn test_get_full_model_info_not_found() {
    let provider = AnthropicProvider::new("test-key", family())
        .expect("Should create provider");

    let model_opt = provider
        .get_full_model_info("nonexistent-model")
        .expect("Should not error");

    assert!(model_opt.is_none(), "Should not find nonexistent model");
}

#[test]
fn descriptions_hold_the_title_of_the_family() {
    let provider = AnthropicProvider::new("test-key", family()).unwrap();
    let models = provider.list_models().unwrap();
    let descriptions: Vec<String> = models.iter().map(|m| m.description.clone().unwrap()).collect();
    assert_eq!(
        descriptions,
        vec![
            "Latest Sonata model with improved reasoning and code skills",
            "Most capable Sonata model for complex reasoning tasks",
            "Fast and compact Sonata model for simple tasks",
        ]
    );
    let created: Vec<u64> = models.iter().map(|m| m.created).collect();
    assert_eq!(created, vec![1724076800, 1709251200, 1709251200]);
}

#[test]
fn openai_models_in_full() {
    let provider = OpenAIProvider::new("test-key").unwrap();
    let models = provider.list_models().unwrap();
    let ids: Vec<&str> = models.iter().map(|m| m.id.as_str()).collect();
    assert_eq!(ids, vec!["gpt-4", "gpt-4-turbo", "gpt-3.5-turbo", "gpt-4o", "gpt-4o-mini"]);
    let mini = provider.get_full_model_info("gpt-4o-mini").unwrap().unwrap();
    assert_eq!(mini.name, "GPT-4 Optimized Mini");
    assert_eq!(mini.created, 1718192000);
    assert_eq!(mini.capabilities.input_modalities, vec!["text"]);
    assert!(!mini.capabilities.caching);
    let pricing = mini.pricing.unwrap();
    assert_eq!(per_thousand(pricing.prompt_tokens), 0.00015);
    assert_eq!(per_thousand(pricing.completion_tokens), 0.0006);
    assert!(!pricing.is_free);
    assert!(provider.get_full_model_info("gpt-5").unwrap().is_none());
}
