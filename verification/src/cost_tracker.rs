//! Estimates and running totals of what requests cost.
//!
//! Amounts of money are whole trillionths of a US dollar. Points in time and the length of the
//! window are nanoseconds of one monotonic clock, whose readings the caller hands in.

use crate::str_map;
use crate::str_map::StrMap;
use crate::types;
use crate::types::{ModelPricing, Usage};
use vstd::prelude::*;

verus! {

/// The cost of a request.
#[derive(Debug, Clone, PartialEq)]
pub struct CostEstimate {
    /// Cost of the input tokens.
    pub input_cost: u128,
    /// Cost of the output tokens.
    pub output_cost: u128,
    /// Total cost.
    pub total_cost: u128,
    /// Input tokens.
    pub input_tokens: u32,
    /// Output tokens.
    pub output_tokens: u32,
    /// Model used.
    pub model: String,
    /// Provider name.
    pub provider: String,
}

/// The cost of a request, mathematically.
pub struct EstimateView {
    pub input_cost: u128,
    pub output_cost: u128,
    pub total_cost: u128,
    pub input_tokens: u32,
    pub output_tokens: u32,
    pub model: Seq<char>,
    pub provider: Seq<char>,
}

impl View for CostEstimate {
    type V = EstimateView;

    open spec fn view(&self) -> EstimateView {
        EstimateView {
            input_cost: self.input_cost,
            output_cost: self.output_cost,
            total_cost: self.total_cost,
            input_tokens: self.input_tokens,
            output_tokens: self.output_tokens,
            model: self.model@,
            provider: self.provider@,
        }
    }
}

/// What some tokens cost at prices per token.
pub open spec fn priced(
    input_tokens: u32,
    output_tokens: u32,
    input_price: u64,
    output_price: u64,
    model: Seq<char>,
    provider: Seq<char>,
) -> EstimateView {
    EstimateView {
        input_cost: (input_tokens * input_price) as u128,
        output_cost: (output_tokens * output_price) as u128,
        total_cost: (input_tokens * input_price + output_tokens * output_price) as u128,
        input_tokens,
        output_tokens,
        model,
        provider,
    }
}

impl CostEstimate {
    /// An estimate from its parts.
    pub fn new(
        input_cost: u128,
        output_cost: u128,
        total_cost: u128,
        input_tokens: u32,
        output_tokens: u32,
        model: &str,
        provider: &str,
    ) -> (r: CostEstimate)
        ensures
            r@ == (EstimateView {
                input_cost,
                output_cost,
                total_cost,
                input_tokens,
                output_tokens,
                model: model@,
                provider: provider@,
            }),
    {
        CostEstimate {
            input_cost,
            output_cost,
            total_cost,
            input_tokens,
            output_tokens,
            model: model.to_owned(),
            provider: provider.to_owned(),
        }
    }

    /// What some tokens cost at prices per token.
    pub fn priced(
        input_tokens: u32,
        output_tokens: u32,
        input_price: u64,
        output_price: u64,
        model: &str,
        provider: &str,
    ) -> (r: CostEstimate)
        ensures
            r@ == priced(
                input_tokens,
                output_tokens,
                input_price,
                output_price,
                model@,
                provider@,
            ),
            r.input_cost == input_tokens * input_price,
            r.output_cost == output_tokens * output_price,
            r.total_cost == r.input_cost + r.output_cost,
    {
        let input_cost: u128 = types::cost_of(input_tokens, input_price);
        let output_cost: u128 = types::cost_of(output_tokens, output_price);
        CostEstimate::new(
            input_cost,
            output_cost,
            input_cost + output_cost,
            input_tokens,
            output_tokens,
            model,
            provider,
        )
    }

    /// What a usage costs at the prices of a model.
    pub fn from_usage(usage: &Usage, pricing: &ModelPricing, model: &str, provider: &str) -> (r:
        CostEstimate)
        ensures
            r@ == priced(
                usage.prompt_tokens,
                usage.completion_tokens,
                pricing.prompt_tokens,
                pricing.completion_tokens,
                model@,
                provider@,
            ),
            r.input_cost == usage.prompt_tokens * pricing.prompt_tokens,
            r.output_cost == usage.completion_tokens * pricing.completion_tokens,
            r.total_cost == r.input_cost + r.output_cost,
    {
        CostEstimate::priced(
            usage.prompt_tokens,
            usage.completion_tokens,
            pricing.prompt_tokens,
            pricing.completion_tokens,
            model,
            provider,
        )
    }
}

/// Tracks costs over time.
#[derive(Debug)]
pub struct CostTracker {
    total_by_provider: StrMap<u128>,
    total_by_model: StrMap<u128>,
    tokens_by_provider: StrMap<u64>,
    requests_by_provider: StrMap<u64>,
    recent_costs: Vec<(u64, u128)>,
    window_duration: u64,
}

/// The value under a key, zero where there is none.
pub open spec fn amount<V>(m: Map<Seq<char>, V>, key: Seq<char>, zero: V) -> V {
    if m.dom().contains(key) {
        m[key]
    } else {
        zero
    }
}

/// Numbers that can be added up.
pub trait Amount: Copy {
    /// The number.
    spec fn value(self) -> nat;

    /// The greatest number that can be held.
    spec fn most() -> nat;

    /// Zero.
    fn zero() -> (r: Self)
        ensures
            r.value() == 0,
    ;

    /// The sum of two numbers.
    fn plus(self, other: Self) -> (r: Self)
        requires
            self.value() + other.value() <= Self::most(),
        ensures
            r.value() == self.value() + other.value(),
    ;
}

impl Amount for u64 {
    open spec fn value(self) -> nat {
        self as nat
    }

    open spec fn most() -> nat {
        u64::MAX as nat
    }

    fn zero() -> (r: u64) {
        0
    }

    fn plus(self, other: u64) -> (r: u64) {
        self + other
    }
}

impl Amount for u128 {
    open spec fn value(self) -> nat {
        self as nat
    }

    open spec fn most() -> nat {
        u128::MAX as nat
    }

    fn zero() -> (r: u128) {
        0
    }

    fn plus(self, other: u128) -> (r: u128) {
        self + other
    }
}

/// The sum of all values in a map with these keys.
pub open spec fn total<V: Amount>(keys: Seq<Seq<char>>, m: Map<Seq<char>, V>) -> int {
    str_map::sum_over(keys, |k: Seq<char>| m[k].value() as int)
}

/// A moment lies in the window that ends now.
pub open spec fn in_window(time: u64, now: u64, window: u64) -> bool {
    time + window > now
}

/// The costs whose moments lie in the window, in order.
pub open spec fn within(recent: Seq<(u64, u128)>, now: u64, window: u64) -> Seq<(u64, u128)>
    decreases recent.len(),
{
    if recent.len() == 0 {
        Seq::empty()
    } else {
        let front = within(recent.drop_last(), now, window);
        if in_window(recent.last().0, now, window) {
            front.push(recent.last())
        } else {
            front
        }
    }
}

/// The sum of some costs.
pub open spec fn spent(recent: Seq<(u64, u128)>) -> int
    decreases recent.len(),
{
    if recent.len() == 0 {
        0
    } else {
        spent(recent.drop_last()) + recent.last().1
    }
}

/// An entry with the greatest amount; nothing where there are no entries.
pub open spec fn is_top(top: Option<(String, u128)>, m: Map<Seq<char>, u128>) -> bool {
    match top {
        Some(t) => m.dom().contains(t.0@) && m[t.0@] == t.1 && forall|k: Seq<char>| #[trigger]
            m.dom().contains(k) ==> m[k] <= t.1,
        None => m.dom() == Set::<Seq<char>>::empty(),
    }
}

/// Cost statistics.
#[derive(Debug)]
pub struct CostStats {
    pub total_cost: u128,
    pub recent_cost: u128,
    pub total_tokens: u64,
    pub total_requests: u64,
    pub cost_by_provider: StrMap<u128>,
    pub cost_by_model: StrMap<u128>,
    pub top_provider: Option<(String, u128)>,
    pub top_model: Option<(String, u128)>,
    pub window_duration: u64,
}

/// Setting one value changes the sum by the difference.
proof fn lemma_total_insert<V: Amount>(
    before: StrMap<V>,
    after: StrMap<V>,
    key: Seq<char>,
    value: V,
    zero: V,
)
    requires
        before.wf(),
        after@ == before@.insert(key, value),
        after.keys() == (if before@.dom().contains(key) {
            before.keys()
        } else {
            before.keys().push(key)
        }),
        zero.value() == 0,
    ensures
        total(after.keys(), after@) == total(before.keys(), before@) - amount(
            before@,
            key,
            zero,
        ).value() + value.value(),
{
    let f = |k: Seq<char>| before@[k].value() as int;
    let g = |k: Seq<char>| after@[k].value() as int;
    before.lemma_keys();
    let keys = before.keys();
    if before@.dom().contains(key) {
        let at = keys.index_of(key);
        assert(keys.contains(key));
        assert(keys[at] == key);
        assert forall|i: int| 0 <= i < keys.len() && i != at implies f(#[trigger] keys[i]) == g(
            keys[i],
        ) by {
            assert(keys[i] != keys[at]);
        }
        str_map::lemma_sum_changed(keys, f, g, at);
    } else {
        assert(after.keys().drop_last() =~= keys);
        assert forall|i: int| 0 <= i < keys.len() implies f(#[trigger] keys[i]) == g(keys[i]) by {
            assert(before@.dom().contains(keys[i]));
        }
        str_map::lemma_sum_same(keys, f, g);
    }
}

/// No value is more than the sum of all.
proof fn lemma_amount_in_total<V: Amount>(m: StrMap<V>, key: Seq<char>, zero: V)
    requires
        zero.value() == 0,
    ensures
        amount(m@, key, zero).value() <= total(m.keys(), m@),
{
    let f = |k: Seq<char>| m@[k].value() as int;
    m.lemma_keys();
    str_map::lemma_sum_nonnegative(m.keys(), f);
    if m@.dom().contains(key) {
        assert(m.keys().contains(key));
        str_map::lemma_sum_bound(m.keys(), f, m.keys().index_of(key));
    }
}

fn amount_of<V: Copy>(m: &StrMap<V>, key: &str, zero: V) -> (r: V)
    ensures
        r == amount(m@, key@, zero),
{
    match m.get(key) {
        Some(v) => *v,
        None => zero,
    }
}

fn add_all<V: Amount>(m: &StrMap<V>) -> (r: V)
    requires
        total(m.keys(), m@) <= V::most(),
    ensures
        r.value() == total(m.keys(), m@),
{
    let mut sum: V = V::zero();
    let mut i: usize = 0;
    let ghost f = |k: Seq<char>| m@[k].value() as int;
    assert(m.keys().take(0) =~= Seq::empty());
    while i < m.len()
        invariant
            i <= m.keys().len(),
            f == (|k: Seq<char>| m@[k].value() as int),
            str_map::sum_over(m.keys(), f) <= V::most(),
            sum.value() == str_map::sum_over(m.keys().take(i as int), f),
        decreases m.keys().len() - i,
    {
        assert(m.keys().take(i + 1).drop_last() =~= m.keys().take(i as int));
        proof {
            lemma_sum_prefix(m.keys(), f, i + 1);
        }
        sum = sum.plus(*m.value_at(i));
        i = i + 1;
    }
    assert(m.keys().take(i as int) =~= m.keys());
    sum
}

/// The sum over the first keys is at most the sum over all of them.
proof fn lemma_sum_prefix(keys: Seq<Seq<char>>, f: spec_fn(Seq<char>) -> int, n: int)
    requires
        0 <= n <= keys.len(),
        forall|k: Seq<char>| #[trigger] f(k) >= 0,
    ensures
        str_map::sum_over(keys.take(n), f) <= str_map::sum_over(keys, f),
    decreases keys.len() - n,
{
    if n == keys.len() {
        assert(keys.take(n) =~= keys);
    } else {
        lemma_sum_prefix(keys, f, n + 1);
        assert(keys.take(n + 1).drop_last() =~= keys.take(n));
        assert(f(keys.take(n + 1).last()) >= 0);
    }
}

/// The first costs add up to at most all of them.
proof fn lemma_spent_prefix(recent: Seq<(u64, u128)>, n: int)
    requires
        0 <= n <= recent.len(),
    ensures
        0 <= spent(recent.take(n)) <= spent(recent),
    decreases recent.len(),
{
    if n == recent.len() {
        assert(recent.take(n) =~= recent);
        if recent.len() > 0 {
            lemma_spent_prefix(recent.drop_last(), recent.len() - 1);
            assert(recent.drop_last().take(recent.len() - 1) =~= recent.drop_last());
        }
    } else {
        lemma_spent_prefix(recent.drop_last(), n);
        assert(recent.drop_last().take(n) =~= recent.take(n));
    }
}

fn top_of(m: &StrMap<u128>) -> (r: Option<(String, u128)>)
    ensures
        is_top(r, m@),
{
    let mut best: Option<usize> = None;
    let mut i: usize = 0;
    proof {
        m.lemma_keys();
    }
    while i < m.len()
        invariant
            i <= m.keys().len(),
            match best {
                Some(b) => b < i && forall|j: int|
                    0 <= j < i ==> m@[#[trigger] m.keys()[j]] <= m@[m.keys()[b as int]],
                None => i == 0,
            },
        decreases m.keys().len() - i,
    {
        best = match best {
            Some(b) => if *m.value_at(i) >= *m.value_at(b) {
                Some(i)
            } else {
                Some(b)
            },
            None => Some(i),
        };
        i = i + 1;
    }
    match best {
        Some(b) => {
            assert(m.keys().contains(m.keys()[b as int]));
            Some((m.key_at(b).to_owned(), *m.value_at(b)))
        },
        None => {
            assert(m@.dom() =~= Set::<Seq<char>>::empty());
            None
        },
    }
}

impl CostTracker {
    /// Costs by provider.
    pub closed spec fn providers(&self) -> StrMap<u128> {
        self.total_by_provider
    }

    /// Costs by model.
    pub closed spec fn models(&self) -> StrMap<u128> {
        self.total_by_model
    }

    /// Tokens by provider.
    pub closed spec fn tokens(&self) -> StrMap<u64> {
        self.tokens_by_provider
    }

    /// Requests by provider.
    pub closed spec fn requests(&self) -> StrMap<u64> {
        self.requests_by_provider
    }

    /// The costs that were not yet dropped from the window, with their moments.
    pub closed spec fn recent(&self) -> Seq<(u64, u128)> {
        self.recent_costs@
    }

    /// The length of the window.
    pub closed spec fn window(&self) -> u64 {
        self.window_duration
    }

    /// What all providers cost together.
    pub open spec fn grand_total(&self) -> int {
        total(self.providers().keys(), self.providers()@)
    }

    /// The tokens of all providers.
    pub open spec fn token_total(&self) -> int {
        total(self.tokens().keys(), self.tokens()@)
    }

    /// The requests of all providers.
    pub open spec fn request_total(&self) -> int {
        total(self.requests().keys(), self.requests()@)
    }

    /// What the providers cost together is what the models cost together, and at least what the
    /// recent costs add up to; and all totals are in range.
    pub open spec fn wf(&self) -> bool {
        &&& self.grand_total() == total(self.models().keys(), self.models()@)
        &&& spent(self.recent()) <= self.grand_total() <= u128::MAX
        &&& self.token_total() <= u64::MAX
        &&& self.request_total() <= u64::MAX
    }

    /// No total goes out of range when this estimate is added.
    pub open spec fn room_for(&self, e: EstimateView) -> bool {
        &&& self.grand_total() + e.total_cost <= u128::MAX
        &&& e.input_tokens + e.output_tokens <= u32::MAX
        &&& self.token_total() + e.input_tokens + e.output_tokens <= u64::MAX
        &&& self.request_total() + 1 <= u64::MAX
    }

    /// A tracker with a window of this length.
    pub fn new(window_duration: u64) -> (r: CostTracker)
        ensures
            r.wf(),
            r.window() == window_duration,
            r.providers()@ == Map::<Seq<char>, u128>::empty(),
            r.models()@ == Map::<Seq<char>, u128>::empty(),
            r.tokens()@ == Map::<Seq<char>, u64>::empty(),
            r.requests()@ == Map::<Seq<char>, u64>::empty(),
            r.recent() == Seq::<(u64, u128)>::empty(),
            r.grand_total() == 0,
    {
        CostTracker {
            total_by_provider: StrMap::new(),
            total_by_model: StrMap::new(),
            tokens_by_provider: StrMap::new(),
            requests_by_provider: StrMap::new(),
            recent_costs: Vec::new(),
            window_duration,
        }
    }

    /// A tracker with a window of one hour.
    pub fn default() -> (r: CostTracker)
        ensures
            r.wf(),
            r.window() == 3600 * 1_000_000_000,
            r.providers()@ == Map::<Seq<char>, u128>::empty(),
            r.models()@ == Map::<Seq<char>, u128>::empty(),
            r.tokens()@ == Map::<Seq<char>, u64>::empty(),
            r.requests()@ == Map::<Seq<char>, u64>::empty(),
            r.recent() == Seq::<(u64, u128)>::empty(),
            r.grand_total() == 0,
    {
        CostTracker::new(3_600_000_000_000)
    }

    /// Whether an estimate can be added with every total in range.
    pub fn can_track(&self, estimate: &CostEstimate) -> (r: bool)
        requires
            self.wf(),
        ensures
            r == self.room_for(estimate@),
    {
        let both: u64 = estimate.input_tokens as u64 + estimate.output_tokens as u64;
        self.total_cost() <= u128::MAX - estimate.total_cost && both <= u32::MAX as u64
            && self.total_tokens() <= u64::MAX - both && self.total_requests() < u64::MAX
    }

    /// Adds the cost of a completion at this moment.
    pub fn track_completion(&mut self, estimate: &CostEstimate, now: u64)
        requires
            old(self).wf(),
            old(self).room_for(estimate@),
        ensures
            final(self).wf(),
            final(self).window() == old(self).window(),
            final(self).providers()@ == old(self).providers()@.insert(
                estimate.provider@,
                (amount(old(self).providers()@, estimate.provider@, 0u128) + estimate.total_cost) as u128,
            ),
            final(self).models()@ == old(self).models()@.insert(
                estimate.model@,
                (amount(old(self).models()@, estimate.model@, 0u128) + estimate.total_cost) as u128,
            ),
            final(self).tokens()@ == old(self).tokens()@.insert(
                estimate.provider@,
                (amount(old(self).tokens()@, estimate.provider@, 0u64) + estimate.input_tokens
                    + estimate.output_tokens) as u64,
            ),
            final(self).requests()@ == old(self).requests()@.insert(
                estimate.provider@,
                (amount(old(self).requests()@, estimate.provider@, 0u64) + 1) as u64,
            ),
            final(self).recent() == within(
                old(self).recent().push((now, estimate.total_cost)),
                now,
                old(self).window(),
            ),
            final(self).grand_total() == old(self).grand_total() + estimate.total_cost,
            final(self).token_total() == old(self).token_total() + estimate.input_tokens
                + estimate.output_tokens,
            final(self).request_total() == old(self).request_total() + 1,
    {
        let provider = estimate.provider.as_str();
        let model = estimate.model.as_str();
        proof {
            use_type_invariant(&self.total_by_provider);
            use_type_invariant(&self.total_by_model);
            use_type_invariant(&self.tokens_by_provider);
            use_type_invariant(&self.requests_by_provider);
            lemma_amount_in_total(self.total_by_provider, estimate.provider@, 0u128);
            lemma_amount_in_total(self.total_by_model, estimate.model@, 0u128);
            lemma_amount_in_total(self.tokens_by_provider, estimate.provider@, 0u64);
            lemma_amount_in_total(self.requests_by_provider, estimate.provider@, 0u64);
        }

        let cost: u128 = amount_of(&self.total_by_provider, provider, 0) + estimate.total_cost;
        self.total_by_provider.insert(provider, cost);
        proof {
            lemma_total_insert(
                old(self).total_by_provider,
                self.total_by_provider,
                estimate.provider@,
                cost,
                0u128,
            );
        }

        let model_cost: u128 = amount_of(&self.total_by_model, model, 0) + estimate.total_cost;
        self.total_by_model.insert(model, model_cost);
        proof {
            lemma_total_insert(
                old(self).total_by_model,
                self.total_by_model,
                estimate.model@,
                model_cost,
                0u128,
            );
        }

        let provider_tokens: u32 = estimate.input_tokens + estimate.output_tokens;
        let tokens: u64 = amount_of(&self.tokens_by_provider, provider, 0) + provider_tokens as u64;
        self.tokens_by_provider.insert(provider, tokens);
        proof {
            lemma_total_insert(
                old(self).tokens_by_provider,
                self.tokens_by_provider,
                estimate.provider@,
                tokens,
                0u64,
            );
        }

        let requests: u64 = amount_of(&self.requests_by_provider, provider, 0) + 1;
        self.requests_by_provider.insert(provider, requests);
        proof {
            lemma_total_insert(
                old(self).requests_by_provider,
                self.requests_by_provider,
                estimate.provider@,
                requests,
                0u64,
            );
        }

        self.recent_costs.push((now, estimate.total_cost));
        let ghost noted = self.recent_costs@;
        self.cleanup_recent(now);
        proof {
            assert(noted.drop_last() =~= old(self).recent_costs@);
            law_kept_costs_in_window(noted, now, self.window_duration);
        }
    }

    /// Adds what a usage costs at the prices of a model.
    pub fn track_usage(
        &mut self,
        usage: &Usage,
        pricing: &ModelPricing,
        model: &str,
        provider: &str,
        now: u64,
    )
        requires
            old(self).wf(),
            old(self).room_for(
                priced(
                    usage.prompt_tokens,
                    usage.completion_tokens,
                    pricing.prompt_tokens,
                    pricing.completion_tokens,
                    model@,
                    provider@,
                ),
            ),
        ensures
            final(self).wf(),
            final(self).window() == old(self).window(),
            final(self).grand_total() == old(self).grand_total() + usage.prompt_tokens
                * pricing.prompt_tokens + usage.completion_tokens * pricing.completion_tokens,
            final(self).providers()@ == old(self).providers()@.insert(
                provider@,
                (amount(old(self).providers()@, provider@, 0u128) + usage.prompt_tokens
                    * pricing.prompt_tokens + usage.completion_tokens
                    * pricing.completion_tokens) as u128,
            ),
            final(self).models()@ == old(self).models()@.insert(
                model@,
                (amount(old(self).models()@, model@, 0u128) + usage.prompt_tokens
                    * pricing.prompt_tokens + usage.completion_tokens
                    * pricing.completion_tokens) as u128,
            ),
            final(self).tokens()@ == old(self).tokens()@.insert(
                provider@,
                (amount(old(self).tokens()@, provider@, 0u64) + usage.prompt_tokens
                    + usage.completion_tokens) as u64,
            ),
            final(self).requests()@ == old(self).requests()@.insert(
                provider@,
                (amount(old(self).requests()@, provider@, 0u64) + 1) as u64,
            ),
            final(self).recent() == within(
                old(self).recent().push(
                    (
                        now,
                        (usage.prompt_tokens * pricing.prompt_tokens + usage.completion_tokens
                            * pricing.completion_tokens) as u128,
                    ),
                ),
                now,
                old(self).window(),
            ),
    {
        let estimate = CostEstimate::from_usage(usage, pricing, model, provider);
        self.track_completion(&estimate, now);
    }

    /// Total cost by provider.
    pub fn total_by_provider(&self) -> (r: StrMap<u128>)
        ensures
            r@ == self.providers()@,
    {
        self.total_by_provider.duplicate()
    }

    /// Total cost by model.
    pub fn total_by_model(&self) -> (r: StrMap<u128>)
        ensures
            r@ == self.models()@,
    {
        self.total_by_model.duplicate()
    }

    /// Total cost across all providers.
    pub fn total_cost(&self) -> (r: u128)
        requires
            self.wf(),
        ensures
            r == self.grand_total(),
    {
        add_all(&self.total_by_provider)
    }

    /// The cost within the window that ends now. What lies before the window is dropped.
    pub fn recent_cost(&mut self, now: u64) -> (r: u128)
        requires
            old(self).wf(),
        ensures
            final(self).wf(),
            final(self).recent() == within(old(self).recent(), now, old(self).window()),
            final(self).window() == old(self).window(),
            final(self).providers() == old(self).providers(),
            final(self).models() == old(self).models(),
            final(self).tokens() == old(self).tokens(),
            final(self).requests() == old(self).requests(),
            r == spent(within(old(self).recent(), now, old(self).window())),
    {
        proof {
            law_kept_costs_in_window(self.recent_costs@, now, self.window_duration);
        }
        self.cleanup_recent(now);
        let mut total: u128 = 0;
        let mut i: usize = 0;
        let ghost all = self.recent_costs@;
        assert(all.take(0) =~= Seq::empty());
        while i < self.recent_costs.len()
            invariant
                all == self.recent_costs@,
                spent(all) <= u128::MAX,
                i <= all.len(),
                total == spent(all.take(i as int)),
            decreases all.len() - i,
        {
            proof {
                assert(all.take(i + 1).drop_last() =~= all.take(i as int));
                lemma_spent_prefix(all, i + 1);
            }
            total = total + self.recent_costs[i].1;
            i = i + 1;
        }
        assert(all.take(i as int) =~= all);
        total
    }

    /// Tokens by provider.
    pub fn tokens_by_provider(&self) -> (r: StrMap<u64>)
        ensures
            r@ == self.tokens()@,
    {
        self.tokens_by_provider.duplicate()
    }

    /// All tokens.
    pub fn total_tokens(&self) -> (r: u64)
        requires
            self.wf(),
        ensures
            r == self.token_total(),
    {
        add_all(&self.tokens_by_provider)
    }

    /// Requests by provider.
    pub fn requests_by_provider(&self) -> (r: StrMap<u64>)
        ensures
            r@ == self.requests()@,
    {
        self.requests_by_provider.duplicate()
    }

    /// All requests.
    pub fn total_requests(&self) -> (r: u64)
        requires
            self.wf(),
        ensures
            r == self.request_total(),
    {
        add_all(&self.requests_by_provider)
    }

    /// All statistics, with the window ending now.
    pub fn stats(&mut self, now: u64) -> (r: CostStats)
        requires
            old(self).wf(),
        ensures
            final(self).wf(),
            final(self).recent() == within(old(self).recent(), now, old(self).window()),
            final(self).window() == old(self).window(),
            final(self).providers() == old(self).providers(),
            final(self).models() == old(self).models(),
            final(self).tokens() == old(self).tokens(),
            final(self).requests() == old(self).requests(),
            r.total_cost == old(self).grand_total(),
            r.recent_cost == spent(within(old(self).recent(), now, old(self).window())),
            r.total_tokens == old(self).token_total(),
            r.total_requests == old(self).request_total(),
            r.cost_by_provider.wf(),
            r.cost_by_provider@ == old(self).providers()@,
            r.cost_by_model.wf(),
            r.cost_by_model@ == old(self).models()@,
            is_top(r.top_provider, old(self).providers()@),
            is_top(r.top_model, old(self).models()@),
            r.window_duration == old(self).window(),
    {
        let recent_cost: u128 = self.recent_cost(now);
        let cost_by_provider = self.total_by_provider();
        let cost_by_model = self.total_by_model();
        proof {
            use_type_invariant(&cost_by_provider);
            use_type_invariant(&cost_by_model);
        }
        CostStats {
            total_cost: self.total_cost(),
            recent_cost,
            total_tokens: self.total_tokens(),
            total_requests: self.total_requests(),
            cost_by_provider,
            cost_by_model,
            top_provider: top_of(&self.total_by_provider),
            top_model: top_of(&self.total_by_model),
            window_duration: self.window_duration,
        }
    }

    /// Drops the costs that lie before the window.
    fn cleanup_recent(&mut self, now: u64)
        ensures
            final(self).recent() == within(old(self).recent(), now, old(self).window()),
            final(self).window() == old(self).window(),
            final(self).providers() == old(self).providers(),
            final(self).models() == old(self).models(),
            final(self).tokens() == old(self).tokens(),
            final(self).requests() == old(self).requests(),
    {
        let mut kept: Vec<(u64, u128)> = Vec::new();
        let mut i: usize = 0;
        let ghost all = self.recent_costs@;
        assert(all.take(0) =~= Seq::empty());
        while i < self.recent_costs.len()
            invariant
                all == self.recent_costs@,
                i <= all.len(),
                kept@ == within(all.take(i as int), now, self.window_duration),
            decreases all.len() - i,
        {
            assert(all.take(i + 1).drop_last() =~= all.take(i as int));
            let entry: (u64, u128) = self.recent_costs[i];
            if entry.0 as u128 + self.window_duration as u128 > now as u128 {
                kept.push(entry);
            }
            i = i + 1;
        }
        assert(all.take(i as int) =~= all);
        self.recent_costs = kept;
    }

    /// Forgets everything that was tracked.
    pub fn reset(&mut self)
        ensures
            final(self).wf(),
            final(self).window() == old(self).window(),
            final(self).providers()@ == Map::<Seq<char>, u128>::empty(),
            final(self).models()@ == Map::<Seq<char>, u128>::empty(),
            final(self).tokens()@ == Map::<Seq<char>, u64>::empty(),
            final(self).requests()@ == Map::<Seq<char>, u64>::empty(),
            final(self).recent() == Seq::<(u64, u128)>::empty(),
            final(self).grand_total() == 0,
    {
        self.total_by_provider = StrMap::new();
        self.total_by_model = StrMap::new();
        self.tokens_by_provider = StrMap::new();
        self.requests_by_provider = StrMap::new();
        self.recent_costs = Vec::new();
    }
}

/// An estimate is the sum of what its tokens cost, and no amount goes out of range.
pub proof fn law_estimate_adds_up(
    input_tokens: u32,
    output_tokens: u32,
    input_price: u64,
    output_price: u64,
    model: Seq<char>,
    provider: Seq<char>,
)
    ensures
        ({
            let e = priced(input_tokens, output_tokens, input_price, output_price, model, provider);
            &&& e.input_cost == input_tokens * input_price
            &&& e.output_cost == output_tokens * output_price
            &&& e.total_cost == e.input_cost + e.output_cost
        }),
{
    assert(0 <= input_tokens * input_price <= 0xffff_ffff * 0xffff_ffff_ffff_ffff)
        by (nonlinear_arith)
        requires
            0 <= input_tokens <= 0xffff_ffff,
            0 <= input_price <= 0xffff_ffff_ffff_ffff,
    ;
    assert(0 <= output_tokens * output_price <= 0xffff_ffff * 0xffff_ffff_ffff_ffff)
        by (nonlinear_arith)
        requires
            0 <= output_tokens <= 0xffff_ffff,
            0 <= output_price <= 0xffff_ffff_ffff_ffff,
    ;
}

/// What the providers cost together is what the models cost together, and the cost within the
/// window is never more.
pub proof fn law_totals_agree(t: &CostTracker, now: u64)
    requires
        t.wf(),
    ensures
        t.grand_total() == total(t.models().keys(), t.models()@),
        spent(within(t.recent(), now, t.window())) <= t.grand_total(),
{
    law_kept_costs_in_window(t.recent(), now, t.window());
}

/// After a cleanup every cost that is kept lies in the window.
pub proof fn law_kept_costs_in_window(recent: Seq<(u64, u128)>, now: u64, window: u64)
    ensures
        forall|i: int|
            0 <= i < within(recent, now, window).len() ==> in_window(
                (#[trigger] within(recent, now, window)[i]).0,
                now,
                window,
            ),
        spent(within(recent, now, window)) <= spent(recent),
    decreases recent.len(),
{
    if recent.len() > 0 {
        law_kept_costs_in_window(recent.drop_last(), now, window);
        let front = within(recent.drop_last(), now, window);
        if in_window(recent.last().0, now, window) {
            assert(within(recent, now, window).drop_last() =~= front);
        }
    }
}

/// A cost counts as recent if and only if less than the window has passed since. Of one more cost
/// the same is true, and the others are not touched by it.
pub proof fn law_window(recent: Seq<(u64, u128)>, time: u64, cost: u128, now: u64, window: u64)
    ensures
        within(Seq::<(u64, u128)>::empty(), now, window) == Seq::<(u64, u128)>::empty(),
        now - time < window ==> within(recent.push((time, cost)), now, window) == within(
            recent,
            now,
            window,
        ).push((time, cost)),
        now - time >= window ==> within(recent.push((time, cost)), now, window) == within(
            recent,
            now,
            window,
        ),
{
    assert(recent.push((time, cost)).drop_last() =~= recent);
}

/// What was spent is the sum of all costs.
pub proof fn law_spent(recent: Seq<(u64, u128)>, time: u64, cost: u128)
    ensures
        spent(Seq::<(u64, u128)>::empty()) == 0,
        spent(recent.push((time, cost))) == spent(recent) + cost,
{
    assert(recent.push((time, cost)).drop_last() =~= recent);
}

/// A total is the sum of the values under all keys.
pub proof fn law_totals_are_sums(
    keys: Seq<Seq<char>>,
    key: Seq<char>,
    m: Map<Seq<char>, u128>,
    n: Map<Seq<char>, u64>,
)
    ensures
        total(Seq::<Seq<char>>::empty(), m) == 0,
        total(Seq::<Seq<char>>::empty(), n) == 0,
        total(keys.push(key), m) == total(keys, m) + m[key],
        total(keys.push(key), n) == total(keys, n) + n[key],
{
    assert(keys.push(key).drop_last() =~= keys);
}

/// The amount under a key is what stands there, and zero where nothing does.
pub proof fn law_amounts(m: Map<Seq<char>, u128>, n: Map<Seq<char>, u64>, key: Seq<char>)
    ensures
        m.dom().contains(key) ==> amount(m, key, 0u128) == m[key],
        !m.dom().contains(key) ==> amount(m, key, 0u128) == 0,
        n.dom().contains(key) ==> amount(n, key, 0u64) == n[key],
        !n.dom().contains(key) ==> amount(n, key, 0u64) == 0,
{
}

/// No entry is above the top one, which is one of them; there is a top one wherever there is an
/// entry.
pub proof fn law_top_entry(top: Option<(String, u128)>, m: Map<Seq<char>, u128>, key: Seq<char>)
    requires
        is_top(top, m),
        m.dom().contains(key),
    ensures
        top matches Some(t) && m.dom().contains(t.0@) && m[t.0@] == t.1 && m[key] <= t.1,
{
}

/// There is room for an estimate if and only if no total leaves its range with it.
pub proof fn law_room(t: &CostTracker, e: EstimateView)
    ensures
        t.room_for(e) <==> t.grand_total() + e.total_cost <= u128::MAX && e.input_tokens
            + e.output_tokens <= u32::MAX && t.token_total() + e.input_tokens + e.output_tokens
            <= u64::MAX && t.request_total() < u64::MAX,
{
}

/// An estimate is seen as it is held.
pub proof fn law_estimates_as_seen(e: CostEstimate)
    ensures
        e@.input_cost == e.input_cost,
        e@.output_cost == e.output_cost,
        e@.total_cost == e.total_cost,
        e@.input_tokens == e.input_tokens,
        e@.output_tokens == e.output_tokens,
        e@.model == e.model@,
        e@.provider == e.provider@,
{
}

} // verus!
