use vincents_llm::cost_tracker::{CostEstimate, CostTracker};
use vincents_llm::types::{ModelPricing, Usage};

const SECOND: u64 = 1_000_000_000;

fn pricing() -> ModelPricing {
    ModelPricing {
        prompt_tokens: 30_000_000,
        completion_tokens: 60_000_000,
        image_tokens: None,
        is_free: false,
    }
}

#[test]
fn usage_totals_and_costs() {
    let usage = Usage::new(1000, 500);
    assert_eq!(usage.total_tokens, 1500);
    assert_eq!(usage.calculate_cost(30_000_000, 60_000_000), 60_000_000_000);
    assert_eq!(Usage::default(), Usage::new(0, 0));
}

#[test]
fn estimate_from_usage() {
    let estimate = CostEstimate::from_usage(&Usage::new(1000, 500), &pricing(), "gpt-4", "openai");
    // Three cents for each half.
    assert_eq!(estimate.input_cost, 30_000_000_000);
    assert_eq!(estimate.output_cost, 30_000_000_000);
    assert_eq!(estimate.total_cost as f64 / 1e12, 0.06);
    assert_eq!(estimate.input_tokens, 1000);
    assert_eq!(estimate.model, "gpt-4");
    assert_eq!(estimate.provider, "openai");
}

#[test]
fn totals_by_provider_and_by_model() {
    let mut tracker = CostTracker::default();
    let one = CostEstimate::new(1, 2, 3, 10, 20, "m1", "p1");
    let two = CostEstimate::new(4, 1, 5, 1, 1, "m2", "p1");
    let three = CostEstimate::new(3, 4, 7, 2, 3, "m1", "p2");
    for estimate in [&one, &two, &three] {
        assert!(tracker.can_track(estimate));
        tracker.track_completion(estimate, SECOND);
    }
    assert_eq!(tracker.total_cost(), 15);
    assert_eq!(tracker.total_by_provider().get("p1"), Some(&8));
    assert_eq!(tracker.total_by_provider().get("p2"), Some(&7));
    assert_eq!(tracker.total_by_model().get("m1"), Some(&10));
    assert_eq!(tracker.total_by_model().get("m2"), Some(&5));
    assert_eq!(tracker.tokens_by_provider().get("p1"), Some(&32));
    assert_eq!(tracker.total_tokens(), 37);
    assert_eq!(tracker.requests_by_provider().get("p1"), Some(&2));
    assert_eq!(tracker.total_requests(), 3);
    let stats = tracker.stats(SECOND);
    assert_eq!(stats.total_cost, 15);
    assert_eq!(stats.recent_cost, 15);
    assert_eq!(stats.total_tokens, 37);
    assert_eq!(stats.total_requests, 3);
    assert_eq!(stats.top_provider, Some(("p1".to_string(), 8)));
    assert_eq!(stats.top_model, Some(("m1".to_string(), 10)));
    assert_eq!(stats.cost_by_provider.len(), 2);
    assert_eq!(stats.cost_by_model.len(), 2);
    assert_eq!(stats.window_duration, 3600 * SECOND);
}

#[test]
fn recent_costs_leave_the_window() {
    let mut tracker = CostTracker::new(10 * SECOND);
    tracker.track_completion(&CostEstimate::new(0, 0, 3, 0, 0, "m", "p"), 0);
    tracker.track_completion(&CostEstimate::new(0, 0, 4, 0, 0, "m", "p"), 5 * SECOND);
    assert_eq!(tracker.recent_cost(9 * SECOND), 7);
    assert_eq!(tracker.recent_cost(10 * SECOND), 4);
    assert_eq!(tracker.recent_cost(15 * SECOND), 0);
    assert_eq!(tracker.total_cost(), 7);
    tracker.reset();
    assert_eq!(tracker.total_cost(), 0);
    assert_eq!(tracker.total_requests(), 0);
    assert!(tracker.stats(0).top_provider.is_none());
}

#[test]
fn usage_is_tracked_at_its_price() {
    let mut tracker = CostTracker::default();
    tracker.track_usage(&Usage::new(10, 20), &pricing(), "gpt-4", "openai", 0);
    assert_eq!(tracker.total_cost(), 1_500_000_000);
    assert_eq!(tracker.total_tokens(), 30);
    assert_eq!(tracker.total_by_model().get("gpt-4"), Some(&1_500_000_000));
}

#[test]
fn totals_out_of_range_are_noticed() {
    let mut tracker = CostTracker::default();
    tracker.track_completion(&CostEstimate::new(0, 0, u128::MAX, 0, 0, "m", "p"), 0);
    assert!(!tracker.can_track(&CostEstimate::new(0, 0, 1, 0, 0, "n", "p")));
    assert!(!tracker.can_track(&CostEstimate::new(0, 0, 1, 0, 0, "m", "q")));
    assert!(!tracker.can_track(&CostEstimate::new(0, 0, 1, 0, 0, "n", "q")));
    assert!(tracker.can_track(&CostEstimate::new(0, 0, 0, 1, 1, "n", "q")));
    assert!(!tracker.can_track(&CostEstimate::new(0, 0, 0, u32::MAX, 1, "n", "q")));
}
