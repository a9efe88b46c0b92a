//! Coordination of several providers: selection, failover and circuit breakers.
//!
//! Points in time are nanoseconds of one monotonic clock, whose readings the caller hands in.

use crate::error::{ErrorView, LLMError};
use crate::http;
use crate::provider;
use crate::provider::{HealthView, LLMProvider, ProviderHealth};
use crate::str_map::StrMap;
use crate::text;
use vstd::prelude::*;

verus! {

/// Configuration of the provider manager.
#[derive(Debug, Clone)]
pub struct ProviderManagerConfig {
    /// Default provider.
    pub default_provider: String,
    /// Whether another provider is tried when one fails.
    pub failover_enabled: bool,
    /// Interval of health checks in seconds.
    pub health_check_interval_sec: u64,
    /// Errors before a circuit breaker opens.
    pub circuit_breaker_threshold: u32,
    /// Seconds for which a circuit breaker stays open.
    pub circuit_breaker_timeout_sec: u64,
}

impl Default for ProviderManagerConfig {
    fn default() -> (r: ProviderManagerConfig)
        ensures
            r.default_provider@ == "openai"@,
            r.failover_enabled,
            r.health_check_interval_sec == 60,
            r.circuit_breaker_threshold == 5,
            r.circuit_breaker_timeout_sec == 30,
    {
        ProviderManagerConfig {
            default_provider: "openai".to_owned(),
            failover_enabled: true,
            health_check_interval_sec: 60,
            circuit_breaker_threshold: 5,
            circuit_breaker_timeout_sec: 30,
        }
    }
}

/// The position of a circuit breaker.
#[derive(Debug, Clone, Copy, PartialEq, Eq, Structural)]
pub enum CircuitBreaker {
    Closed,
    Open,
    HalfOpen,
}

/// The state of a circuit breaker.
#[derive(Debug, Clone, Copy, PartialEq, Eq, Structural)]
pub struct CircuitBreakerState {
    failures: u32,
    threshold: u32,
    last_failure: Option<u64>,
    timeout_sec: u64,
    state: CircuitBreaker,
}

impl CircuitBreakerState {
    /// The failures so far.
    pub closed spec fn failed(&self) -> u32 {
        self.failures
    }

    /// The failures that open the breaker.
    pub closed spec fn limit(&self) -> u32 {
        self.threshold
    }

    /// The moment of the last failure.
    pub closed spec fn failed_at(&self) -> Option<u64> {
        self.last_failure
    }

    /// The seconds for which the breaker stays open.
    pub closed spec fn pause(&self) -> u64 {
        self.timeout_sec
    }

    /// The position.
    pub closed spec fn position(&self) -> CircuitBreaker {
        self.state
    }

    /// Once open the breaker has failed at some moment, at least as often as its limit says; one
    /// that has reached its limit is open.
    pub open spec fn wf(&self) -> bool {
        &&& self.position() == CircuitBreaker::Open ==> self.failed() >= self.limit()
            && self.failed_at() is Some && self.failed() > 0
        &&& self.failed() > 0 && self.failed() >= self.limit() ==> self.position()
            == CircuitBreaker::Open
        &&& self.failed() > 0 <==> self.failed_at() is Some
    }

    /// The breaker keeps requests away at this moment: it is open, and the last failure is no
    /// longer past than its pause.
    pub open spec fn blocks(&self, now: u64) -> bool {
        self.position() == CircuitBreaker::Open && match self.failed_at() {
            Some(t) => now - t <= self.pause() * 1_000_000_000,
            None => true,
        }
    }

    /// Counting a failure at this moment makes `after` of the breaker: it opens when the limit is
    /// reached.
    pub open spec fn fails_to(&self, after: CircuitBreakerState, now: u64) -> bool {
        &&& after.failed() == self.failed() + 1
        &&& after.limit() == self.limit()
        &&& after.failed_at() == Some(now)
        &&& after.pause() == self.pause()
        &&& after.position() == (if self.failed() + 1 >= self.limit() {
            CircuitBreaker::Open
        } else {
            self.position()
        })
    }

    /// A closed breaker that opens at this many failures, for thirty seconds.
    pub fn new(threshold: u32) -> (r: CircuitBreakerState)
        ensures
            r.wf(),
            r.failed() == 0,
            r.limit() == threshold,
            r.failed_at() is None,
            r.pause() == 30,
            r.position() == CircuitBreaker::Closed,
    {
        CircuitBreakerState::with_timeout(threshold, 30)
    }

    /// A closed breaker that opens at this many failures, for this many seconds.
    pub fn with_timeout(threshold: u32, timeout_sec: u64) -> (r: CircuitBreakerState)
        ensures
            r.wf(),
            r.failed() == 0,
            r.limit() == threshold,
            r.failed_at() is None,
            r.pause() == timeout_sec,
            r.position() == CircuitBreaker::Closed,
    {
        CircuitBreakerState {
            failures: 0,
            threshold,
            last_failure: None,
            timeout_sec,
            state: CircuitBreaker::Closed,
        }
    }

    /// Whether another failure can be counted.
    pub fn can_record(&self) -> (r: bool)
        ensures
            r == (self.failed() < u32::MAX),
    {
        self.failures < u32::MAX
    }

    /// Counts a failure; the breaker opens when the limit is reached.
    pub fn record_failure(&mut self, now: u64)
        requires
            old(self).wf(),
            old(self).failed() < u32::MAX,
        ensures
            final(self).wf(),
            old(self).fails_to(*final(self), now),
    {
        self.failures = self.failures + 1;
        self.last_failure = Some(now);
        if self.failures >= self.threshold {
            self.state = CircuitBreaker::Open;
        }
    }

    /// Whether the breaker keeps requests away at this moment.
    pub fn is_open(&self, now: u64) -> (r: bool)
        ensures
            r == self.blocks(now),
    {
        if self.state == CircuitBreaker::Open {
            match self.last_failure {
                Some(t) => {
                    let elapsed: u64 = if now >= t {
                        now - t
                    } else {
                        0
                    };
                    !(elapsed as u128 > self.timeout_sec as u128 * 1_000_000_000u128)
                },
                None => true,
            }
        } else {
            false
        }
    }
}

/// A breaker whose last failure reached its limit keeps requests away for its pause, and no
/// longer.
pub proof fn law_open_breaker_blocks_for_its_pause(b: CircuitBreakerState, now: u64)
    requires
        b.wf(),
        b.failed() > 0,
        b.failed() >= b.limit(),
    ensures
        b.blocks(now) <==> now - b.failed_at()->Some_0 <= b.pause() * 1_000_000_000,
{
}

/// Below its limit a breaker keeps nothing away.
pub proof fn law_closed_below_the_limit(b: CircuitBreakerState, now: u64)
    requires
        b.wf(),
        b.failed() < b.limit(),
    ensures
        !b.blocks(now),
{
}

/// Several providers, by name, each with a circuit breaker.
pub struct ProviderManager<P: LLMProvider> {
    config: ProviderManagerConfig,
    providers: StrMap<P>,
    circuit_breakers: StrMap<CircuitBreakerState>,
}

/// The names of the providers that are still to be tried for a request.
#[derive(Debug)]
pub struct Failover {
    names: Vec<String>,
    position: usize,
}

impl Failover {
    /// All names that the failover goes through.
    pub closed spec fn candidates(&self) -> Seq<Seq<char>> {
        text::texts(self.names@)
    }

    /// How many of them it has left behind.
    pub closed spec fn done(&self) -> int {
        self.position as int
    }

    /// It has left no more behind than there are.
    pub closed spec fn wf(&self) -> bool {
        self.position <= self.names@.len()
    }
}

/// What to do after a provider failed.
#[derive(Debug)]
pub enum FailoverStep {
    /// Try the next provider.
    TryNext,
    /// Give the error back.
    GiveUp(LLMError),
}

/// The error where every provider failed.
pub open spec fn all_failed() -> ErrorView {
    ErrorView::ProviderError {
        provider: "all"@,
        message: "All providers failed"@,
        code: None,
    }
}

/// The error is one after which another provider can be tried.
pub open spec fn passes_on(e: ErrorView) -> bool {
    e is RateLimitError || e is HttpError
}

/// The health of a provider whose check may have failed.
pub open spec fn health_entry(name: Seq<char>, checked: Result<HealthView, ErrorView>) -> HealthView {
    match checked {
        Ok(h) => h,
        Err(e) => HealthView {
            name,
            healthy: false,
            latency_ms: None,
            error: Some(e.displayed()),
            rate_limit_remaining: None,
            rate_limit_total: None,
        },
    }
}

/// The health of a provider whose check may have failed.
pub fn health_or_error(name: &str, checked: Result<ProviderHealth, LLMError>) -> (r: ProviderHealth)
    ensures
        r@ == health_entry(name@, http::seen(checked)),
{
    match checked {
        Ok(h) => h,
        Err(e) => ProviderHealth {
            name: name.to_owned(),
            healthy: false,
            latency_ms: None,
            error: Some(e.display()),
            rate_limit_remaining: None,
            rate_limit_total: None,
        },
    }
}

impl<P: LLMProvider> ProviderManager<P> {
    /// The configuration.
    pub closed spec fn settings(&self) -> ProviderManagerConfig {
        self.config
    }

    /// The providers by name.
    pub closed spec fn providers(&self) -> StrMap<P> {
        self.providers
    }

    /// The circuit breakers by name.
    pub closed spec fn breakers(&self) -> StrMap<CircuitBreakerState> {
        self.circuit_breakers
    }

    /// Each provider stands under its own name and has a breaker with the limit and the pause of
    /// the configuration.
    pub open spec fn wf(&self) -> bool {
        &&& self.providers().wf()
        &&& self.breakers()@.dom() == self.providers()@.dom()
        &&& forall|k: Seq<char>| #[trigger]
            self.providers()@.dom().contains(k) ==> self.providers()@[k].id() == k
        &&& forall|k: Seq<char>| #[trigger]
            self.breakers()@.dom().contains(k) ==> self.breakers()@[k].wf()
                && self.breakers()@[k].limit() == self.settings().circuit_breaker_threshold
                && self.breakers()@[k].pause() == self.settings().circuit_breaker_timeout_sec
    }

    /// The names of the providers, in the order in which they came.
    pub open spec fn names(&self) -> Seq<Seq<char>> {
        self.providers().keys()
    }

    /// The provider under this name supports the model.
    pub open spec fn supports(&self, name: Seq<char>, model: Seq<char>) -> bool {
        self.providers()@.dom().contains(name) && self.providers()@[name].catalogue().contains(
            model,
        )
    }

    /// No breaker keeps requests away from this name.
    pub open spec fn available(&self, name: Seq<char>, now: u64) -> bool {
        self.breakers()@.dom().contains(name) ==> !self.breakers()@[name].blocks(now)
    }

    /// The provider under this name supports the model and is available.
    pub open spec fn ready(&self, name: Seq<char>, model: Seq<char>, now: u64) -> bool {
        self.supports(name, model) && self.available(name, now)
    }

    /// The models of the first providers, one provider after the other.
    pub open spec fn models_of_first(&self, n: int) -> Seq<Seq<char>>
        decreases n,
    {
        if n <= 0 {
            Seq::empty()
        } else {
            self.models_of_first(n - 1) + self.providers()@[self.names()[n - 1]].catalogue()
        }
    }

    /// The name is the one to select for the model: the default provider where it is ready, else
    /// the first that is ready, else the first that supports the model.
    pub open spec fn selected(&self, name: Seq<char>, model: Seq<char>, now: u64) -> bool {
        let default = self.settings().default_provider@;
        if self.ready(default, model, now) {
            name == default
        } else if exists|k: Seq<char>| self.ready(k, model, now) {
            self.ready(name, model, now) && exists|i: int|
                0 <= i < self.names().len() && name == #[trigger] self.names()[i] && forall|j: int|
                    0 <= j < i ==> !self.ready(#[trigger] self.names()[j], model, now)
        } else {
            self.supports(name, model) && exists|i: int|
                0 <= i < self.names().len() && name == #[trigger] self.names()[i] && forall|j: int|
                    0 <= j < i ==> !self.supports(#[trigger] self.names()[j], model)
        }
    }

    /// A failover that goes on at this moment finds this candidate: the first that is available
    /// among those that it has not left behind, if there is one. It leaves behind the candidate
    /// and all before it.
    pub open spec fn goes_on(
        &self,
        before: &Failover,
        after: &Failover,
        now: u64,
        found: Option<Seq<char>>,
    ) -> bool {
        &&& after.candidates() == before.candidates()
        &&& before.done() <= after.done() <= before.candidates().len()
        &&& match found {
            Some(name) => {
                &&& before.done() < after.done()
                &&& name == before.candidates()[after.done() - 1]
                &&& self.available(name, now)
                &&& forall|j: int|
                    before.done() <= j < after.done() - 1 ==> !self.available(
                        #[trigger] before.candidates()[j],
                        now,
                    )
            },
            None => {
                &&& after.done() == before.candidates().len()
                &&& forall|j: int|
                    before.done() <= j < after.done() ==> !self.available(
                        #[trigger] before.candidates()[j],
                        now,
                    )
            },
        }
    }

    /// A manager without providers.
    pub fn new(config: ProviderManagerConfig) -> (r: ProviderManager<P>)
        ensures
            r.wf(),
            r.settings() == config,
            r.providers()@ == Map::<Seq<char>, P>::empty(),
            r.names() == Seq::<Seq<char>>::empty(),
    {
        let r = ProviderManager {
            config,
            providers: StrMap::new(),
            circuit_breakers: StrMap::new(),
        };
        assert(r.breakers()@.dom() =~= r.providers()@.dom());
        proof {
            use_type_invariant(&r.providers);
        }
        r
    }

    /// Adds a provider under its name, in the place of one with that name. It gets a closed
    /// breaker with the limit and the pause of the configuration.
    pub fn register_provider(&mut self, provider: P)
        requires
            old(self).wf(),
        ensures
            final(self).wf(),
            final(self).settings() == old(self).settings(),
            final(self).providers()@ == old(self).providers()@.insert(provider.id(), provider),
            final(self).names() == (if old(self).providers()@.dom().contains(provider.id()) {
                old(self).names()
            } else {
                old(self).names().push(provider.id())
            }),
            exists|b: CircuitBreakerState|
                #![trigger b.position()]
                final(self).breakers()@ == old(self).breakers()@.insert(provider.id(), b)
                    && b.failed() == 0 && b.failed_at() is None && b.position()
                    == CircuitBreaker::Closed && b.limit()
                    == old(self).settings().circuit_breaker_threshold && b.pause()
                    == old(self).settings().circuit_breaker_timeout_sec,
    {
        let name = provider.name().to_owned();
        let breaker = CircuitBreakerState::with_timeout(
            self.config.circuit_breaker_threshold,
            self.config.circuit_breaker_timeout_sec,
        );
        self.circuit_breakers.insert(name.as_str(), breaker);
        self.providers.insert(name.as_str(), provider);
        proof {
            use_type_invariant(&self.providers);
        }
        assert(self.breakers()@.dom() =~= self.providers()@.dom());
        assert(breaker.position() == CircuitBreaker::Closed);
    }

    /// The provider with this name.
    pub fn get_provider(&self, name: &str) -> (r: Option<&P>)
        requires
            self.wf(),
        ensures
            match r {
                Some(p) => self.providers()@.dom().contains(name@) && *p == self.providers()@[name@],
                None => !self.providers()@.dom().contains(name@),
            },
    {
        self.providers.get(name)
    }

    /// The default provider.
    pub fn get_default_provider(&self) -> (r: Option<&P>)
        requires
            self.wf(),
        ensures
            match r {
                Some(p) => self.providers()@.dom().contains(self.settings().default_provider@) && *p
                    == self.providers()@[self.settings().default_provider@],
                None => !self.providers()@.dom().contains(self.settings().default_provider@),
            },
    {
        self.get_provider(self.config.default_provider.as_str())
    }

    /// Whether no breaker keeps requests away from this name.
    pub fn is_provider_available(&self, name: &str, now: u64) -> (r: bool)
        requires
            self.wf(),
        ensures
            r == self.available(name@, now),
    {
        match self.circuit_breakers.get(name) {
            Some(state) => !state.is_open(now),
            None => true,
        }
    }

    fn is_ready(&self, i: usize, model: &str, now: u64) -> (r: bool)
        requires
            self.wf(),
            i < self.names().len(),
        ensures
            r == self.ready(self.names()[i as int], model@, now),
    {
        proof {
            self.providers.lemma_keys();
        }
        let p = self.providers.value_at(i);
        p.supports_model(model) && self.is_provider_available(p.name(), now)
    }

    /// The provider to use for a model.
    pub fn select_provider(&self, model: &str, now: u64) -> (r: Result<&P, LLMError>)
        requires
            self.wf(),
        ensures
            match r {
                Ok(p) => self.providers()@.dom().contains(p.id()) && *p == self.providers()@[p.id()]
                    && self.selected(p.id(), model@, now),
                Err(e) => (forall|k: Seq<char>| !#[trigger] self.supports(k, model@)) && e@ == (
                ErrorView::ModelNotAvailable {
                    model: model@,
                    available_models: self.models_of_first(self.names().len() as int),
                }),
            },
    {
        proof {
            self.providers.lemma_keys();
        }
        let default = self.config.default_provider.as_str();
        match self.providers.get(default) {
            Some(p) => {
                if p.supports_model(model) && self.is_provider_available(default, now) {
                    assert(self.ready(default@, model@, now));
                    return Ok(p);
                }
            },
            None => {},
        }
        assert(!self.ready(default@, model@, now));
        let mut i: usize = 0;
        while i < self.providers.len()
            invariant
                self.wf(),
                i <= self.names().len(),
                !self.ready(self.settings().default_provider@, model@, now),
                forall|j: int| 0 <= j < i ==> !self.ready(#[trigger] self.names()[j], model@, now),
            decreases self.names().len() - i,
        {
            if self.is_ready(i, model, now) {
                proof {
                    self.providers.lemma_keys();
                    assert(self.ready(self.names()[i as int], model@, now));
                }
                return Ok(self.providers.value_at(i));
            }
            i = i + 1;
        }
        assert forall|k: Seq<char>| !self.ready(k, model@, now) by {
            if self.ready(k, model@, now) {
                assert(self.providers()@.dom().contains(k));
                assert(self.names().contains(k));
                let j = self.names().index_of(k);
                assert(self.names()[j] == k);
            }
        }
        let mut n: usize = 0;
        while n < self.providers.len()
            invariant
                self.wf(),
                n <= self.names().len(),
                forall|k: Seq<char>| !#[trigger] self.ready(k, model@, now),
                forall|j: int| 0 <= j < n ==> !self.supports(#[trigger] self.names()[j], model@),
            decreases self.names().len() - n,
        {
            proof {
                self.providers.lemma_keys();
            }
            let p = self.providers.value_at(n);
            if p.supports_model(model) {
                assert(self.supports(self.names()[n as int], model@));
                return Ok(p);
            }
            n = n + 1;
        }
        assert forall|k: Seq<char>| !#[trigger] self.supports(k, model@) by {
            if self.supports(k, model@) {
                assert(self.providers()@.dom().contains(k));
                assert(self.names().contains(k));
                let j = self.names().index_of(k);
                assert(self.names()[j] == k);
            }
        }
        Err(
            LLMError::ModelNotAvailable {
                model: model.to_owned(),
                available_models: self.all_models(),
            },
        )
    }

    fn all_models(&self) -> (r: Vec<String>)
        requires
            self.wf(),
        ensures
            text::texts(r@) == self.models_of_first(self.names().len() as int),
    {
        let mut out: Vec<String> = Vec::new();
        let mut i: usize = 0;
        assert(text::texts(out@) =~= Seq::empty());
        while i < self.providers.len()
            invariant
                self.wf(),
                i <= self.names().len(),
                text::texts(out@) == self.models_of_first(i as int),
            decreases self.names().len() - i,
        {
            let mut models = self.providers.value_at(i).supported_models();
            let ghost before = out@;
            let ghost added = models@;
            out.append(&mut models);
            assert(text::texts(out@) =~= text::texts(before) + text::texts(added));
            i = i + 1;
        }
        out
    }

    /// Starts to go through the providers that support the model of a request.
    pub fn start_failover(&self, model: &str) -> (r: Failover)
        requires
            self.wf(),
        ensures
            r.wf(),
            r.done() == 0,
            r.candidates() == self.names().filter(|k: Seq<char>| self.supports(k, model@)),
    {
        let mut names: Vec<String> = Vec::new();
        let mut i: usize = 0;
        let ghost keep = |k: Seq<char>| self.supports(k, model@);
        proof {
            reveal(Seq::filter);
            assert(self.names().take(0).filter(keep) =~= Seq::empty());
            assert(text::texts(names@) =~= Seq::empty());
        }
        while i < self.providers.len()
            invariant
                self.wf(),
                i <= self.names().len(),
                keep == (|k: Seq<char>| self.supports(k, model@)),
                text::texts(names@) == self.names().take(i as int).filter(keep),
            decreases self.names().len() - i,
        {
            proof {
                self.providers.lemma_keys();
                reveal(Seq::filter);
                assert(self.names().take(i + 1).drop_last() =~= self.names().take(i as int));
            }
            if self.providers.value_at(i).supports_model(model) {
                let ghost before = names@;
                names.push(self.providers.key_at(i).to_owned());
                assert(text::texts(names@) =~= text::texts(before).push(self.names()[i as int]));
            }
            i = i + 1;
        }
        assert(self.names().take(i as int) =~= self.names());
        Failover { names, position: 0 }
    }

    /// The next candidate that is available, if any is left; those before it are left behind.
    pub fn next_candidate(&self, run: &mut Failover, now: u64) -> (r: Option<String>)
        requires
            self.wf(),
            old(run).wf(),
        ensures
            final(run).wf(),
            self.goes_on(old(run), final(run), now, text::opt_text(r)),
    {
        while run.position < run.names.len()
            invariant
                self.wf(),
                run.position <= run.names@.len(),
                run.names@ == old(run).names@,
                old(run).position <= run.position,
                forall|j: int|
                    old(run).position <= j < run.position ==> !self.available(
                        #[trigger] old(run).candidates()[j],
                        now,
                    ),
            decreases run.names@.len() - run.position,
        {
            let at: usize = run.position;
            run.position = at + 1;
            assert(old(run).candidates()[at as int] == run.names@[at as int]@);
            if self.is_provider_available(run.names[at].as_str(), now) {
                return Some(run.names[at].clone());
            }
        }
        None
    }

    /// Whether a failure of the provider with this name can be counted.
    pub fn can_record(&self, name: &str) -> (r: bool)
        requires
            self.wf(),
        ensures
            r == (self.breakers()@.dom().contains(name@) ==> self.breakers()@[name@].failed()
                < u32::MAX),
    {
        match self.circuit_breakers.get(name) {
            Some(state) => state.can_record(),
            None => true,
        }
    }

    /// Counts a failure of the provider with this name.
    pub fn record_error(&mut self, name: &str, now: u64)
        requires
            old(self).wf(),
            old(self).breakers()@.dom().contains(name@) ==> old(self).breakers()@[name@].failed()
                < u32::MAX,
        ensures
            final(self).wf(),
            final(self).settings() == old(self).settings(),
            final(self).providers() == old(self).providers(),
            final(self).breakers()@.dom() == old(self).breakers()@.dom(),
            forall|k: Seq<char>|
                old(self).breakers()@.dom().contains(k) && k != name@ ==> (#[trigger] final(self).breakers()@[k]) == old(self).breakers()@[k],
            old(self).breakers()@.dom().contains(name@) ==> old(self).breakers()@[name@].fails_to(
                final(self).breakers()@[name@],
                now,
            ),
    {
        let state = match self.circuit_breakers.get(name) {
            Some(s) => *s,
            None => return,
        };
        let mut updated = state;
        updated.record_failure(now);
        self.circuit_breakers.insert(name, updated);
        assert(self.breakers()@.dom() =~= old(self).breakers()@.dom());
    }

    /// What to do after the provider with this name failed. A rate limit or an HTTP error counts
    /// against the provider, and the next one is tried where failover is enabled; any other error
    /// is given back.
    pub fn after_failure(&mut self, name: &str, error: LLMError, now: u64) -> (r: FailoverStep)
        requires
            old(self).wf(),
            old(self).breakers()@.dom().contains(name@) ==> old(self).breakers()@[name@].failed()
                < u32::MAX,
        ensures
            final(self).wf(),
            final(self).settings() == old(self).settings(),
            final(self).providers() == old(self).providers(),
            r is TryNext <==> passes_on(error@) && old(self).settings().failover_enabled,
            r matches FailoverStep::GiveUp(e) ==> e == error,
            (error is HttpError || error is RateLimitError)
                && old(self).settings().failover_enabled ==> r is TryNext,
            !(error is HttpError || error is RateLimitError) ==> r == FailoverStep::GiveUp(error)
                && final(self).breakers() == old(self).breakers(),
            (error is HttpError || error is RateLimitError)
                && !old(self).settings().failover_enabled ==> r == FailoverStep::GiveUp(error),
            (error is HttpError || error is RateLimitError)
                && old(self).breakers()@.dom().contains(name@)
                ==> final(self).breakers()@[name@].failed()
                == old(self).breakers()@[name@].failed() + 1
                && final(self).breakers()@[name@].failed_at() == Some(now),
            !passes_on(error@) ==> final(self).breakers() == old(self).breakers(),
            passes_on(error@) && old(self).breakers()@.dom().contains(name@) ==> old(self).breakers()@[name@].fails_to(final(self).breakers()@[name@], now),
            final(self).breakers()@.dom() == old(self).breakers()@.dom(),
            forall|k: Seq<char>|
                old(self).breakers()@.dom().contains(k) && k != name@ ==> (#[trigger] final(self).breakers()@[k]) == old(self).breakers()@[k],
    {
        let counts = match &error {
            LLMError::RateLimitError { .. } => true,
            LLMError::HttpError { .. } => true,
            _ => false,
        };
        if !counts {
            return FailoverStep::GiveUp(error);
        }
        self.record_error(name, now);
        if self.config.failover_enabled {
            FailoverStep::TryNext
        } else {
            FailoverStep::GiveUp(error)
        }
    }

    /// The error where no candidate is left.
    pub fn exhausted() -> (r: LLMError)
        ensures
            r@ == all_failed(),
    {
        LLMError::ProviderError {
            provider: "all".to_owned(),
            message: "All providers failed".to_owned(),
            code: None,
        }
    }

    /// The health of all providers.
    pub fn health_status(&self) -> (r: StrMap<ProviderHealth>)
        requires
            self.wf(),
        ensures
            r@.dom() == self.providers()@.dom(),
            forall|k: Seq<char>| #[trigger]
                r@.dom().contains(k) ==> r@[k]@ == health_entry(
                    k,
                    provider::health_from(k, self.providers()@[k].limits()),
                ),
    {
        let mut status: StrMap<ProviderHealth> = StrMap::new();
        let mut i: usize = 0;
        proof {
            self.providers.lemma_keys();
        }
        while i < self.providers.len()
            invariant
                self.wf(),
                i <= self.names().len(),
                forall|k: Seq<char>| #[trigger]
                    status@.dom().contains(k) <==> exists|j: int|
                        0 <= j < i && #[trigger] self.names()[j] == k,
                forall|k: Seq<char>| #[trigger]
                    status@.dom().contains(k) ==> status@[k]@ == health_entry(
                        k,
                        provider::health_from(k, self.providers()@[k].limits()),
                    ),
            decreases self.names().len() - i,
        {
            proof {
                self.providers.lemma_keys();
            }
            let name = self.providers.key_at(i);
            assert(self.providers()@.dom().contains(name@));
            let health = health_or_error(name, self.providers.value_at(i).health_check());
            let ghost before = status@;
            status.insert(name, health);
            assert forall|k: Seq<char>| #[trigger] status@.dom().contains(k) <==> exists|j: int|
                0 <= j < i + 1 && #[trigger] self.names()[j] == k by {
                if before.dom().contains(k) {
                    let j = choose|j: int| 0 <= j < i && #[trigger] self.names()[j] == k;
                    assert(self.names()[j] == k);
                }
                if k == name@ {
                    assert(self.names()[i as int] == k);
                }
            }
            i = i + 1;
        }
        assert(status@.dom() =~= self.providers()@.dom()) by {
            assert forall|k: Seq<char>| self.providers()@.dom().contains(k) implies status@.dom().contains(
                k,
            ) by {
                assert(self.names().contains(k));
                let j = self.names().index_of(k);
                assert(self.names()[j] == k);
            }
            assert forall|k: Seq<char>| status@.dom().contains(k) implies self.providers()@.dom().contains(
                k,
            ) by {
                let j = choose|j: int| 0 <= j < i && #[trigger] self.names()[j] == k;
                assert(self.providers()@.dom().contains(self.names()[j]));
            }
        }
        status
    }

    /// The names of all providers.
    pub fn provider_names(&self) -> (r: Vec<String>)
        requires
            self.wf(),
        ensures
            text::texts(r@) == self.names(),
    {
        let mut out: Vec<String> = Vec::new();
        let mut i: usize = 0;
        while i < self.providers.len()
            invariant
                i <= self.names().len(),
                out@.len() == i,
                forall|j: int| 0 <= j < i ==> (#[trigger] out@[j])@ == self.names()[j],
            decreases self.names().len() - i,
        {
            out.push(self.providers.key_at(i).to_owned());
            i = i + 1;
        }
        assert(text::texts(out@) =~= self.names());
        out
    }
}

/// A provider that has failed as often as the configuration says is kept away for the configured
/// pause after its last failure, and no longer; one that has not is available.
pub proof fn law_breakers_follow_the_configuration<P: LLMProvider>(
    m: ProviderManager<P>,
    name: Seq<char>,
    now: u64,
)
    requires
        m.wf(),
        m.providers()@.dom().contains(name),
    ensures
        ({
            let b = m.breakers()@[name];
            let reached = b.failed() > 0 && b.failed() >= m.settings().circuit_breaker_threshold;
            m.available(name, now) <==> !(reached && now - b.failed_at()->Some_0
                <= m.settings().circuit_breaker_timeout_sec * 1_000_000_000)
        }),
{
    assert(m.breakers()@.dom().contains(name));
}

/// The provider that is selected supports the model; and it is available whenever any provider
/// that supports the model is.
pub proof fn law_selected_provider_supports_the_model<P: LLMProvider>(
    m: ProviderManager<P>,
    name: Seq<char>,
    model: Seq<char>,
    now: u64,
)
    requires
        m.wf(),
        m.selected(name, model, now),
    ensures
        m.supports(name, model),
        (exists|k: Seq<char>| m.ready(k, model, now)) ==> m.available(name, now),
{
}

/// A failover tries each provider at most once, and only providers that support the model.
pub proof fn law_failover_candidates<P: LLMProvider>(m: ProviderManager<P>, model: Seq<char>)
    requires
        m.wf(),
    ensures
        m.names().filter(|k: Seq<char>| m.supports(k, model)).no_duplicates(),
        forall|k: Seq<char>|
            m.names().filter(|k: Seq<char>| m.supports(k, model)).contains(k) ==> #[trigger]
                m.supports(k, model),
        forall|k: Seq<char>| #[trigger]
            m.supports(k, model) ==> m.names().filter(
                |k: Seq<char>| m.supports(k, model),
            ).contains(k),
{
    let keep = |k: Seq<char>| m.supports(k, model);
    m.providers().lemma_keys();
    lemma_filter_distinct(m.names(), keep);
    m.names().filter_lemma(keep);
    assert forall|k: Seq<char>| #[trigger] m.supports(k, model) implies m.names().filter(
        keep,
    ).contains(k) by {
        assert(m.providers()@.dom().contains(k));
        let i = m.names().index_of(k);
        assert(m.names().contains(k));
        assert(keep(m.names()[i]));
    }
}

/// A failover went through these stages: at each it went on with the manager as it stood at that
/// moment, from the first candidate to where none was left.
pub open spec fn failover_ran<P: LLMProvider>(
    managers: Seq<ProviderManager<P>>,
    runs: Seq<Failover>,
    moments: Seq<u64>,
    found: Seq<Option<Seq<char>>>,
) -> bool {
    &&& managers.len() == moments.len()
    &&& found.len() == moments.len()
    &&& runs.len() == moments.len() + 1
    &&& moments.len() > 0
    &&& runs[0].done() == 0
    &&& found.last() is None
    &&& forall|i: int|
        0 <= i < moments.len() ==> (#[trigger] managers[i]).goes_on(
            &runs[i],
            &runs[i + 1],
            moments[i],
            found[i],
        )
}

/// At the stage that left the candidate at this position behind, it was found, or was kept away
/// by its breaker.
pub open spec fn had_its_turn<P: LLMProvider>(
    managers: Seq<ProviderManager<P>>,
    runs: Seq<Failover>,
    moments: Seq<u64>,
    found: Seq<Option<Seq<char>>>,
    k: int,
) -> bool {
    let name = runs[0].candidates()[k];
    exists|i: int|
        #![trigger managers[i]]
        0 <= i < moments.len() && runs[i].done() <= k < runs[i + 1].done() && (found[i] == Some(
            name,
        ) || !managers[i].available(name, moments[i]))
}

proof fn lemma_failover_order<P: LLMProvider>(
    managers: Seq<ProviderManager<P>>,
    runs: Seq<Failover>,
    moments: Seq<u64>,
    found: Seq<Option<Seq<char>>>,
    i: int,
    j: int,
)
    requires
        failover_ran(managers, runs, moments, found),
        0 <= i <= j < runs.len(),
    ensures
        runs[i].done() <= runs[j].done(),
        runs[j].candidates() == runs[i].candidates(),
    decreases j - i,
{
    if i < j {
        lemma_failover_order(managers, runs, moments, found, i, j - 1);
        assert(managers[j - 1].goes_on(&runs[j - 1], &runs[j], moments[j - 1], found[j - 1]));
    }
}

/// A failover that ends without a candidate has passed over none: each was tried, or was kept away
/// by its breaker when its turn came. None was tried twice.
pub proof fn law_failover_passes_over_no_candidate<P: LLMProvider>(
    managers: Seq<ProviderManager<P>>,
    runs: Seq<Failover>,
    moments: Seq<u64>,
    found: Seq<Option<Seq<char>>>,
)
    requires
        failover_ran(managers, runs, moments, found),
        runs[0].candidates().no_duplicates(),
    ensures
        forall|k: int|
            0 <= k < runs[0].candidates().len() ==> #[trigger] had_its_turn(
                managers,
                runs,
                moments,
                found,
                k,
            ),
        forall|i: int, j: int|
            0 <= i < j < moments.len() && found[i] is Some ==> #[trigger] found[i]
                != #[trigger] found[j],
{
    let n = moments.len() as int;
    let all = runs[0].candidates();
    assert forall|k: int| 0 <= k < all.len() implies #[trigger] had_its_turn(
        managers,
        runs,
        moments,
        found,
        k,
    ) by {
        assert(managers[n - 1].goes_on(&runs[n - 1], &runs[n], moments[n - 1], found[n - 1]));
        lemma_failover_order(managers, runs, moments, found, 0, n);
        lemma_failover_order(managers, runs, moments, found, 0, n - 1);
        let i = lemma_left_behind_at(managers, runs, moments, found, k, n);
        assert(managers[i].goes_on(&runs[i], &runs[i + 1], moments[i], found[i]));
        lemma_failover_order(managers, runs, moments, found, 0, i);
        assert(runs[i].candidates()[k] == all[k]);
    }
    assert forall|i: int, j: int| 0 <= i < j < n && found[i] is Some implies #[trigger] found[i]
        != #[trigger] found[j] by {
        assert(managers[i].goes_on(&runs[i], &runs[i + 1], moments[i], found[i]));
        assert(managers[j].goes_on(&runs[j], &runs[j + 1], moments[j], found[j]));
        lemma_failover_order(managers, runs, moments, found, 0, i);
        lemma_failover_order(managers, runs, moments, found, 0, j);
        lemma_failover_order(managers, runs, moments, found, i + 1, j);
        if found[j] is Some {
            assert(found[i]->Some_0 == all[runs[i + 1].done() - 1]);
            assert(found[j]->Some_0 == all[runs[j + 1].done() - 1]);
        }
    }
}

/// The stage at which a candidate is left behind.
proof fn lemma_left_behind_at<P: LLMProvider>(
    managers: Seq<ProviderManager<P>>,
    runs: Seq<Failover>,
    moments: Seq<u64>,
    found: Seq<Option<Seq<char>>>,
    k: int,
    n: int,
) -> (i: int)
    requires
        failover_ran(managers, runs, moments, found),
        0 <= k < runs[n].done(),
        0 <= n < runs.len(),
    ensures
        0 <= i < n,
        runs[i].done() <= k < runs[i + 1].done(),
    decreases n,
{
    if runs[n - 1].done() <= k {
        n - 1
    } else {
        lemma_left_behind_at(managers, runs, moments, found, k, n - 1)
    }
}

proof fn lemma_filter_distinct(s: Seq<Seq<char>>, keep: spec_fn(Seq<char>) -> bool)
    requires
        s.no_duplicates(),
    ensures
        s.filter(keep).no_duplicates(),
        forall|i: int|
            0 <= i < s.filter(keep).len() ==> s.contains(#[trigger] s.filter(keep)[i]),
    decreases s.len(),
{
    reveal(Seq::filter);
    if s.len() > 0 {
        let front = s.drop_last();
        lemma_filter_distinct(front, keep);
        assert forall|i: int| 0 <= i < front.filter(keep).len() implies s.contains(
            #[trigger] front.filter(keep)[i],
        ) && front.filter(keep)[i] != s.last() by {
            let j = front.index_of(front.filter(keep)[i]);
            assert(front.contains(front.filter(keep)[i]));
            assert(front[j] == s[j]);
        }
        assert(s.contains(s.last()));
    }
}

/// A rate limit and an HTTP error, whatever they say, are the errors after which another provider
/// is tried. No other error is.
pub proof fn law_errors_that_pass_on(e: ErrorView)
    ensures
        match e {
            ErrorView::RateLimitError { .. } => passes_on(e),
            ErrorView::HttpError { .. } => passes_on(e),
            ErrorView::AuthenticationError { .. } => !passes_on(e),
            ErrorView::ModelNotAvailable { .. } => !passes_on(e),
            ErrorView::InvalidRequestError { .. } => !passes_on(e),
            ErrorView::TimeoutError { .. } => !passes_on(e),
            ErrorView::ProviderError { .. } => !passes_on(e),
            ErrorView::ConfigurationError { .. } => !passes_on(e),
            ErrorView::SerializationError { .. } => !passes_on(e),
            ErrorView::StreamingError { .. } => !passes_on(e),
            ErrorView::ContentFilterError { .. } => !passes_on(e),
            ErrorView::UnsupportedError { .. } => !passes_on(e),
            ErrorView::ContextLengthExceeded { .. } => !passes_on(e),
            ErrorView::ResponseFormatError { .. } => !passes_on(e),
            ErrorView::QuotaExceeded { .. } => !passes_on(e),
        },
{
}

/// A new breaker that counts failures one after the other keeps requests away if and only if
/// there were as many as its limit, at least one, and the last is no longer past than its pause.
pub proof fn law_breaker_opens_at_its_limit(
    states: Seq<CircuitBreakerState>,
    moments: Seq<u64>,
    now: u64,
)
    requires
        states.len() == moments.len() + 1,
        states[0].failed() == 0,
        states[0].failed_at() is None,
        states[0].position() == CircuitBreaker::Closed,
        forall|i: int|
            0 <= i < moments.len() ==> (#[trigger] states[i]).fails_to(states[i + 1], moments[i]),
    ensures
        states.last().failed() == moments.len(),
        states.last().blocks(now) <==> moments.len() > 0 && moments.len() >= states[0].limit()
            && now <= moments.last() + states[0].pause() * 1_000_000_000,
{
    lemma_counted(states, moments, moments.len() as int);
}

proof fn lemma_counted(states: Seq<CircuitBreakerState>, moments: Seq<u64>, n: int)
    requires
        states.len() == moments.len() + 1,
        states[0].failed() == 0,
        states[0].failed_at() is None,
        states[0].position() == CircuitBreaker::Closed,
        forall|i: int|
            0 <= i < moments.len() ==> (#[trigger] states[i]).fails_to(states[i + 1], moments[i]),
        0 <= n <= moments.len(),
    ensures
        states[n].failed() == n,
        states[n].limit() == states[0].limit(),
        states[n].pause() == states[0].pause(),
        n > 0 ==> states[n].failed_at() == Some(moments[n - 1]),
        states[n].position() == (if n > 0 && n >= states[0].limit() {
            CircuitBreaker::Open
        } else {
            CircuitBreaker::Closed
        }),
    decreases n,
{
    if n > 0 {
        lemma_counted(states, moments, n - 1);
        assert(states[n - 1].fails_to(states[n], moments[n - 1]));
    }
}

/// A provider whose breaker lets requests through and which lists the model is selected where it
/// is the default. Where the default is not such a provider, no such provider comes before the
/// one that is selected. Where there is none at all, no provider that lists the model does.
pub proof fn law_selection_goes_in_order<P: LLMProvider>(
    m: ProviderManager<P>,
    name: Seq<char>,
    other: Seq<char>,
    model: Seq<char>,
    now: u64,
    at: int,
    to: int,
)
    requires
        m.wf(),
        m.selected(name, model, now),
        0 <= at < m.names().len(),
        0 <= to < m.names().len(),
        m.names()[at] == name,
        m.names()[to] == other,
        m.providers()@[other].catalogue().contains(model),
    ensures
        m.providers()@[name].catalogue().contains(model),
        !m.breakers()@[other].blocks(now) && other == m.settings().default_provider@ ==> name
            == other,
        !m.breakers()@[other].blocks(now) ==> !m.breakers()@[name].blocks(now),
        !m.breakers()@[other].blocks(now) && name != m.settings().default_provider@ ==> at <= to,
        m.breakers()@[name].blocks(now) ==> at <= to,
{
    m.providers().lemma_keys();
    let default = m.settings().default_provider@;
    assert(m.providers()@.dom().contains(other));
    assert(m.breakers()@.dom().contains(other));
    assert(m.providers()@.dom().contains(name));
    assert(m.breakers()@.dom().contains(name));
    assert(m.supports(other, model));
    if !m.breakers()@[other].blocks(now) {
        assert(m.ready(other, model, now));
    }
    if m.ready(default, model, now) {
    } else if exists|k: Seq<char>| m.ready(k, model, now) {
        let i = choose|i: int|
            0 <= i < m.names().len() && name == #[trigger] m.names()[i] && forall|j: int|
                0 <= j < i ==> !m.ready(#[trigger] m.names()[j], model, now);
        assert(i == at);
    } else {
        let i = choose|i: int|
            0 <= i < m.names().len() && name == #[trigger] m.names()[i] && forall|j: int|
                0 <= j < i ==> !m.supports(#[trigger] m.names()[j], model);
        assert(i == at);
    }
}

/// A failover finds a candidate that its breaker does not keep away whenever one is left, and
/// then the first such; it finds nothing else, and where it finds nothing it has left all behind.
pub proof fn law_failover_finds_the_first<P: LLMProvider>(
    m: ProviderManager<P>,
    before: Failover,
    after: Failover,
    now: u64,
    found: Option<Seq<char>>,
    k: int,
)
    requires
        m.wf(),
        m.goes_on(&before, &after, now, found),
        before.done() >= 0,
    ensures
        before.done() <= k < before.candidates().len() && !(m.breakers()@.dom().contains(
            before.candidates()[k],
        ) && m.breakers()@[before.candidates()[k]].blocks(now)) ==> found is Some && after.done()
            <= k + 1,
        found matches Some(name) ==> before.done() < after.done() <= before.candidates().len()
            && name == before.candidates()[after.done() - 1] && !(m.breakers()@.dom().contains(name)
            && m.breakers()@[name].blocks(now)),
        found is None ==> after.done() == before.candidates().len(),
        after.candidates() == before.candidates(),
{
}

/// A failure is counted as one, at its moment; limit and pause stay. The breaker opens where the
/// limit is reached and keeps its position otherwise.
pub proof fn law_failures_are_counted(
    before: CircuitBreakerState,
    after: CircuitBreakerState,
    now: u64,
)
    requires
        before.fails_to(after, now),
    ensures
        after.failed() == before.failed() + 1,
        after.failed_at() == Some(now),
        after.limit() == before.limit(),
        after.pause() == before.pause(),
        after.failed() >= after.limit() ==> after.position() == CircuitBreaker::Open,
        after.failed() < after.limit() ==> after.position() == before.position(),
{
}

/// Where every provider failed, the error says so and stands for all of them.
pub proof fn law_all_failed()
    ensures
        all_failed() matches ErrorView::ProviderError { provider, message, code } && provider
            == "all"@ && message == "All providers failed"@ && code is None,
{
}

/// A provider whose check failed is unhealthy, and the error is shown; otherwise what the check
/// says is kept.
pub proof fn law_failed_checks_are_shown(name: Seq<char>, h: HealthView, e: ErrorView)
    ensures
        health_entry(name, Ok(h)) == h,
        health_entry(name, Err(e)).name == name,
        !health_entry(name, Err(e)).healthy,
        health_entry(name, Err(e)).error == Some(e.displayed()),
        health_entry(name, Err(e)).latency_ms is None,
        health_entry(name, Err(e)).rate_limit_remaining is None,
        health_entry(name, Err(e)).rate_limit_total is None,
{
}

/// The models of all providers are those of the first ones, followed by those of the next one.
pub proof fn law_models_of_all_providers<P: LLMProvider>(m: ProviderManager<P>, n: int, i: int)
    requires
        m.wf(),
        0 <= i < n <= m.names().len(),
    ensures
        forall|model: Seq<char>|
            m.providers()@[m.names()[i]].catalogue().contains(model) ==> #[trigger]
                m.models_of_first(n).contains(model),
        m.models_of_first(0) == Seq::<Seq<char>>::empty(),
        m.models_of_first(n) == m.models_of_first(n - 1)
            + m.providers()@[m.names()[n - 1]].catalogue(),
    decreases n,
{
    if i < n - 1 {
        law_models_of_all_providers(m, n - 1, i);
    }
    let last = m.providers()@[m.names()[n - 1]].catalogue();
    assert forall|model: Seq<char>|
        m.providers()@[m.names()[i]].catalogue().contains(model) implies #[trigger]
        m.models_of_first(n).contains(model) by {
        if i < n - 1 {
            assert(m.models_of_first(n - 1).contains(model));
            let at = m.models_of_first(n - 1).index_of(model);
            assert(m.models_of_first(n)[at] == model);
        } else {
            let at = last.index_of(model);
            assert(m.models_of_first(n)[m.models_of_first(n - 1).len() + at] == model);
        }
    }
}

/// A breaker keeps requests away only where it is open; an open one does so at any moment where it
/// knows of no failure, and otherwise until its pause after the last one is over.
pub proof fn law_only_open_breakers_block(b: CircuitBreakerState, now: u64)
    ensures
        b.position() != CircuitBreaker::Open ==> !b.blocks(now),
        b.position() == CircuitBreaker::Open && b.failed_at() is None ==> b.blocks(now),
        b.position() == CircuitBreaker::Open && b.failed_at() is Some ==> (b.blocks(now) <==> now
            <= b.failed_at()->0 + b.pause() * 1_000_000_000),
{
}

} // verus!
