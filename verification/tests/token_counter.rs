use vincents_llm::token_counter::{
    TokenCount, TokenCounter, TokenCounterConfig, TokenCountingError,
};
use vincents_llm::types::{ChatMessage, Float64};

fn counter_with(cache_size: usize, enable_cache: bool) -> TokenCounter {
    TokenCounter::new(Some(TokenCounterConfig {
        default_model: "gpt-4".to_string(),
        cache_size,
        enable_cache,
        tokens_per_character: Float64 { bits: 0.25f64.to_bits() },
    }))
}

#[test]
fn test_token_counter_basic() {
    let mut counter = TokenCounter::new(None);
    let text = "Hello, world! This is a test.";
    let tokens = counter.count_tokens(text, "gpt-4");
    assert!(tokens.is_ok());
    assert!(tokens.unwrap() > 0);
}

#[test]
fn test_token_counter_cache() {
    let mut counter = TokenCounter::new(None);
    let text = "Test text for caching";

    let first = counter.count_tokens(text, "gpt-4").unwrap();
    let second = counter.count_tokens(text, "gpt-4").unwrap();

    assert_eq!(first, second);
    assert_eq!(counter.cache_size(), 1);
}

#[test]
fn test_estimate_tokens() {
    let mut counter = TokenCounter::new(None);
    let result = counter.estimate_tokens_for_request("Hello", 100, "gpt-4");
    assert!(result.is_ok());
    let tokens = result.unwrap();
    assert!(tokens.prompt_tokens > 0);
    assert_eq!(tokens.completion_tokens, 100);
}

#[test]
fn test_count_messages() {
    let mut counter = TokenCounter::new(None);
    let messages = vec![
        ChatMessage::system("You are a helpful assistant."),
        ChatMessage::user("Hello!"),
    ];
    let result = counter.count_messages(&messages, "gpt-4");
    assert!(result.is_ok());
    assert!(result.unwrap() > 0);
}

#[test]
fn four_characters_make_a_token() {
    let mut counter = TokenCounter::new(None);
    assert_eq!(counter.count_tokens("", "m").unwrap(), 1);
    assert_eq!(counter.count_tokens("abcd", "m").unwrap(), 1);
    assert_eq!(counter.count_tokens("abcde", "m").unwrap(), 2);
    assert_eq!(counter.count_tokens("Hello, world! This is a test.", "m").unwrap(), 8);
    // Characters count, not bytes.
    assert_eq!(counter.count_tokens("éééé", "m").unwrap(), 1);
}

#[test]
fn conversation_counts_text_role_and_framing() {
    let messages = vec![
        ChatMessage::system("You are a helpful assistant."),
        ChatMessage::user("Hello!"),
    ];
    // 7 + 2 + 4, then 2 + 1 + 4, then 3.
    let mut counter = TokenCounter::new(None);
    assert!(TokenCounter::can_count_messages(&messages));
    assert_eq!(counter.count_messages(&messages, "gpt-4").unwrap(), 23);
    assert_eq!(counter.cache_size(), 4);
    let mut plain = counter_with(10, false);
    assert_eq!(plain.count_messages(&messages, "gpt-4").unwrap(), 23);
    assert_eq!(plain.cache_size(), 0);
}

#[test]
fn cache_is_bounded_and_drops_the_oldest() {
    let mut counter = counter_with(2, true);
    for text in ["one", "two", "three", "four"] {
        counter.count_tokens(text, "m").unwrap();
        assert!(counter.cache_size() <= 2);
    }
    assert_eq!(counter.cache_size(), 2);
    counter.clear_cache();
    assert_eq!(counter.cache_size(), 0);
    let mut tiny = counter_with(0, true);
    tiny.count_tokens("one", "m").unwrap();
    tiny.count_tokens("two", "m").unwrap();
    assert_eq!(tiny.cache_size(), 1);
}

#[test]
fn defaults_of_the_counter() {
    let config = TokenCounterConfig::default();
    assert_eq!(config.default_model, "gpt-4");
    assert_eq!(config.cache_size, 1000);
    assert!(config.enable_cache);
    assert_eq!(f64::from_bits(config.tokens_per_character.bits), 0.25);
}

#[test]
fn totals_of_a_token_count() {
    let count = TokenCount::new(3, 4);
    assert_eq!(count.total_tokens, 7);
    let mut counter = TokenCounter::new(None);
    let tokens = counter.estimate_tokens_for_request("Hello", 100, "gpt-4").unwrap();
    assert_eq!(tokens, TokenCount { prompt_tokens: 2, completion_tokens: 100, total_tokens: 102 });
    assert!(counter.with_tiktoken(&[1, 2, 3]).is_ok());
}

#[test]
fn token_counting_errors_are_displayed() {
    let unsupported = TokenCountingError::UnsupportedModel { model: "x".to_string() };
    let encoding = TokenCountingError::EncodingError { message: "y".to_string() };
    let cache = TokenCountingError::CacheError { message: "z".to_string() };
    assert_eq!(unsupported.display(), "Model not supported: x");
    assert_eq!(encoding.display(), "Encoding error: y");
    assert_eq!(cache.display(), "Cache error: z");
}
