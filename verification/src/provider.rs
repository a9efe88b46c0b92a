//! What all providers have in common, and the registry of provider factories.

use crate::config::ProviderConfig;
use crate::cost_tracker::{CostEstimate, EstimateView};
use crate::error;
use crate::error::{ErrorView, LLMError};
use crate::http;
use crate::rate_limiter::RateLimitStatus;
use crate::str_map::StrMap;
use crate::text;
use crate::types;
use crate::types::{
    CapabilitiesView, ChatCompletionRequest, FullModelInfo, FullModelInfoView, ModelCapabilities,
    ModelInfo, ModelPricing, SortOrder,
};
use vstd::prelude::*;

verus! {

/// A request for a list of models.
#[derive(Debug, Clone)]
pub struct ModelListRequest {
    pub filter: Option<String>,
    pub sort_by: Option<String>,
    pub sort_order: Option<SortOrder>,
}

/// Health of a provider.
#[derive(Debug, Clone, PartialEq)]
pub struct ProviderHealth {
    pub name: String,
    pub healthy: bool,
    pub latency_ms: Option<u64>,
    pub error: Option<String>,
    pub rate_limit_remaining: Option<u64>,
    pub rate_limit_total: Option<u64>,
}

/// Health of a provider, mathematically.
pub struct HealthView {
    pub name: Seq<char>,
    pub healthy: bool,
    pub latency_ms: Option<u64>,
    pub error: Option<Seq<char>>,
    pub rate_limit_remaining: Option<u64>,
    pub rate_limit_total: Option<u64>,
}

impl View for ProviderHealth {
    type V = HealthView;

    open spec fn view(&self) -> HealthView {
        HealthView {
            name: self.name@,
            healthy: self.healthy,
            latency_ms: self.latency_ms,
            error: text::opt_text(self.error),
            rate_limit_remaining: self.rate_limit_remaining,
            rate_limit_total: self.rate_limit_total,
        }
    }
}

/// The view of a rate limit status or of the error in its place.
pub open spec fn status_seen(r: Result<RateLimitStatus, LLMError>) -> Result<
    RateLimitStatus,
    ErrorView,
> {
    match r {
        Ok(s) => Ok(s),
        Err(e) => Err(e@),
    }
}

/// A provider that reports its rate limits is healthy.
pub open spec fn health_from(name: Seq<char>, limits: Result<RateLimitStatus, ErrorView>) -> Result<
    HealthView,
    ErrorView,
> {
    match limits {
        Ok(s) => Ok(
            HealthView {
                name,
                healthy: true,
                latency_ms: None,
                error: None,
                rate_limit_remaining: s.remaining,
                rate_limit_total: s.limit,
            },
        ),
        Err(e) => Err(e),
    }
}

/// The health of a provider by the rate limits that it reports.
pub fn health_of_status(name: &str, limits: Result<RateLimitStatus, LLMError>) -> (r: Result<
    ProviderHealth,
    LLMError,
>)
    ensures
        http::seen(r) == health_from(name@, status_seen(limits)),
{
    match limits {
        Ok(s) => Ok(
            ProviderHealth {
                name: name.to_owned(),
                healthy: true,
                latency_ms: None,
                error: None,
                rate_limit_remaining: s.remaining,
                rate_limit_total: s.limit,
            },
        ),
        Err(e) => Err(e),
    }
}

/// The view of optional capabilities.
pub open spec fn opt_capabilities(o: Option<ModelCapabilities>) -> Option<CapabilitiesView> {
    match o {
        Some(c) => Some(c@),
        None => None,
    }
}

/// A provider of language models.
///
/// What a provider is, the spec functions say; one that an implementation leaves out has a value
/// of which nothing is known.
pub trait LLMProvider: Sized {
    /// The name of the provider.
    closed spec fn id(&self) -> Seq<char> {
        arbitrary()
    }

    /// The models that are known to be supported.
    closed spec fn catalogue(&self) -> Seq<Seq<char>> {
        arbitrary()
    }

    /// Whether a model can call functions.
    closed spec fn calls_functions(&self, model: Seq<char>) -> bool {
        arbitrary()
    }

    /// The prices of a model.
    closed spec fn prices(&self, model: Seq<char>) -> Option<ModelPricing> {
        arbitrary()
    }

    /// What a model can do.
    closed spec fn abilities(&self, model: Seq<char>) -> Option<CapabilitiesView> {
        arbitrary()
    }

    /// The rate limits as they stand.
    closed spec fn limits(&self) -> Result<RateLimitStatus, ErrorView> {
        arbitrary()
    }

    /// What a request is estimated to cost.
    closed spec fn cost(&self, request: ChatCompletionRequest) -> Result<EstimateView, ErrorView> {
        arbitrary()
    }

    /// The name of the provider.
    fn name(&self) -> (r: &str)
        ensures
            r@ == self.id(),
    ;

    /// The name to display.
    fn display_name(&self) -> (r: &str)
        default_ensures
            r@ == self.id(),
    {
        self.name()
    }

    /// The models that are known to be supported.
    fn supported_models(&self) -> (r: Vec<String>)
        ensures
            text::texts(r@) == self.catalogue(),
    ;

    /// Whether a model is known to be supported.
    fn supports_model(&self, model: &str) -> (r: bool)
        ensures
            r == self.catalogue().contains(model@),
    {
        listed(&self.supported_models(), model)
    }

    /// Information on a model that is known to be supported.
    fn get_model_info(&self, model: &str) -> (r: Option<ModelInfo>)
        default_ensures
            match r {
                Some(info) => self.catalogue().contains(model@) && info.id@ == model@
                    && info.object@ == "model"@ && info.created == 0 && info.owned_by@ == self.id()
                    && info.permission is None,
                None => !self.catalogue().contains(model@),
            },
    {
        if self.supports_model(model) {
            Some(
                ModelInfo {
                    id: model.to_owned(),
                    object: "model".to_owned(),
                    created: 0,
                    owned_by: self.name().to_owned(),
                    permission: None,
                },
            )
        } else {
            None
        }
    }

    /// The prices of a model.
    fn get_model_pricing(&self, model: &str) -> (r: Option<ModelPricing>)
        ensures
            r == self.prices(model@),
    ;

    /// What a model can do.
    fn get_model_capabilities(&self, model: &str) -> (r: Option<ModelCapabilities>)
        ensures
            opt_capabilities(r) == self.abilities(model@),
    ;

    /// Whether a model can call functions.
    fn supports_function_calling(&self, model: &str) -> (r: bool)
        ensures
            r == self.calls_functions(model@),
    ;

    /// The rate limits as they stand.
    fn rate_limit_status(&self) -> (r: Result<RateLimitStatus, LLMError>)
        ensures
            status_seen(r) == self.limits(),
    ;

    /// What a request is estimated to cost.
    fn estimate_cost(&self, request: &ChatCompletionRequest) -> (r: Result<CostEstimate, LLMError>)
        ensures
            http::seen(r) == self.cost(*request),
    ;

    /// Whether the configuration is valid.
    fn validate_config(&self) -> (r: Result<(), LLMError>)
        default_ensures
            r is Ok,
    {
        Ok(())
    }

    /// The health of the provider.
    fn health_check(&self) -> (r: Result<ProviderHealth, LLMError>)
        ensures
            http::seen(r) == health_from(self.id(), self.limits()),
    {
        health_of_status(self.name(), self.rate_limit_status())
    }
}

/// The error of a provider that cannot stream.
pub open spec fn no_streaming(name: Seq<char>) -> ErrorView {
    ErrorView::UnsupportedError {
        operation: "streaming"@,
        provider: Some(name),
        model: None,
    }
}

/// The error of a provider that cannot stream.
pub fn streaming_unsupported(name: &str) -> (r: LLMError)
    ensures
        r@ == no_streaming(name@),
{
    LLMError::UnsupportedError {
        operation: "streaming".to_owned(),
        provider: Some(name.to_owned()),
        model: None,
    }
}

/// Whether a text is in a list.
pub fn listed(list: &Vec<String>, item: &str) -> (r: bool)
    ensures
        r == text::texts(list@).contains(item@),
{
    let mut i: usize = 0;
    while i < list.len()
        invariant
            i <= list@.len(),
            forall|j: int| 0 <= j < i ==> text::texts(list@)[j] != item@,
        decreases list@.len() - i,
    {
        if text::same(list[i].as_str(), item) {
            assert(text::texts(list@)[i as int] == item@);
            return true;
        }
        i = i + 1;
    }
    false
}

/// What is said of a model of which only the name, the capabilities and the prices are known.
pub open spec fn bare_model(
    id: Seq<char>,
    provider: Seq<char>,
    abilities: Option<CapabilitiesView>,
    prices: Option<ModelPricing>,
) -> FullModelInfoView {
    FullModelInfoView {
        id,
        name: id,
        provider,
        description: None,
        context_window: 0,
        max_output_tokens: 0,
        capabilities: match abilities {
            Some(c) => c,
            None => types::no_capabilities(),
        },
        pricing: prices,
        created: 0,
        available: true,
    }
}

/// The models of a provider that has nothing more to say of them.
pub fn list_models<P: LLMProvider>(provider: &P) -> (r: Vec<FullModelInfo>)
    ensures
        r@.len() == provider.catalogue().len(),
        forall|i: int|
            0 <= i < r@.len() ==> (#[trigger] r@[i])@ == bare_model(
                provider.catalogue()[i],
                provider.id(),
                provider.abilities(provider.catalogue()[i]),
                provider.prices(provider.catalogue()[i]),
            ),
{
    let models = provider.supported_models();
    let mut out: Vec<FullModelInfo> = Vec::new();
    let mut i: usize = 0;
    while i < models.len()
        invariant
            text::texts(models@) == provider.catalogue(),
            i <= models@.len(),
            out@.len() == i,
            forall|j: int|
                0 <= j < i ==> (#[trigger] out@[j])@ == bare_model(
                    provider.catalogue()[j],
                    provider.id(),
                    provider.abilities(provider.catalogue()[j]),
                    provider.prices(provider.catalogue()[j]),
                ),
        decreases models@.len() - i,
    {
        let id = models[i].as_str();
        assert(id@ == provider.catalogue()[i as int]);
        let capabilities = match provider.get_model_capabilities(id) {
            Some(c) => c,
            None => ModelCapabilities::default(),
        };
        out.push(
            FullModelInfo {
                id: id.to_owned(),
                name: id.to_owned(),
                provider: provider.name().to_owned(),
                description: None,
                context_window: 0,
                max_output_tokens: 0,
                capabilities,
                pricing: provider.get_model_pricing(id),
                created: 0,
                available: true,
            },
        );
        i = i + 1;
    }
    out
}

/// The view of an optional model.
pub open spec fn opt_model(o: Option<FullModelInfo>) -> Option<FullModelInfoView> {
    match o {
        Some(m) => Some(m@),
        None => None,
    }
}

/// `found` is the first of the models with this identifier; nothing where none has it.
pub open spec fn is_first_with_id(
    models: Seq<FullModelInfoView>,
    id: Seq<char>,
    found: Option<FullModelInfoView>,
) -> bool {
    match found {
        Some(m) => m.id == id && exists|i: int|
            0 <= i < models.len() && #[trigger] models[i] == m && forall|j: int|
                0 <= j < i ==> (#[trigger] models[j]).id != id,
        None => forall|i: int| 0 <= i < models.len() ==> (#[trigger] models[i]).id != id,
    }
}

/// The first model in a list with this identifier.
pub fn get_full_model_info(models: Vec<FullModelInfo>, model_id: &str) -> (r: Option<FullModelInfo>)
    ensures
        is_first_with_id(types::models_view(models@), model_id@, opt_model(r)),
{
    let ghost all = models@;
    let ghost views = types::models_view(all);
    for m in it: models
        invariant
            it.seq() == all,
            views == types::models_view(all),
            forall|j: int| 0 <= j < it.index() ==> (#[trigger] views[j]).id != model_id@,
    {
        assert(views[it.index()] == m@);
        if text::same(m.id.as_str(), model_id) {
            return Some(m);
        }
    }
    None
}

/// Makes providers from configurations.
pub trait ProviderFactory: Sized {
    /// What a factory makes.
    type Product;

    /// The provider type.
    closed spec fn kind(&self) -> Seq<char> {
        arbitrary()
    }

    /// The factory may make `r` of this configuration.
    closed spec fn makes(&self, config: ProviderConfig, r: Result<Self::Product, LLMError>) -> bool {
        arbitrary()
    }

    /// The provider type.
    fn provider_type(&self) -> (r: &str)
        ensures
            r@ == self.kind(),
    ;

    /// Makes a provider from its configuration.
    fn create(&self, config: &ProviderConfig) -> (r: Result<Self::Product, LLMError>)
        ensures
            self.makes(*config, r),
    ;

    /// The default configuration of this provider type.
    fn default_config(&self) -> ProviderConfig;
}

/// The factories by provider type.
pub struct ProviderRegistry<F: ProviderFactory> {
    factories: StrMap<F>,
}

/// The error for a provider type that no factory stands for.
pub open spec fn unknown_type_error(provider_type: Seq<char>) -> ErrorView {
    ErrorView::ConfigurationError {
        message: "Unknown provider type: "@ + provider_type,
        field: Some("provider_type"@),
    }
}

impl<F: ProviderFactory> ProviderRegistry<F> {
    /// The factories by provider type.
    pub closed spec fn factories(&self) -> StrMap<F> {
        self.factories
    }

    /// Each factory stands under its own type.
    pub open spec fn wf(&self) -> bool {
        forall|k: Seq<char>| #[trigger]
            self.factories()@.dom().contains(k) ==> self.factories()@[k].kind() == k
    }

    /// A registry without factories.
    pub fn new() -> (r: ProviderRegistry<F>)
        ensures
            r.wf(),
            r.factories()@ == Map::<Seq<char>, F>::empty(),
            r.factories().keys() == Seq::<Seq<char>>::empty(),
    {
        ProviderRegistry { factories: StrMap::new() }
    }

    /// Adds a factory, in the place of one of the same type.
    pub fn register(&mut self, factory: F)
        requires
            old(self).wf(),
        ensures
            final(self).wf(),
            final(self).factories()@ == old(self).factories()@.insert(factory.kind(), factory),
            final(self).factories().keys() == (if old(self).factories()@.dom().contains(
                factory.kind(),
            ) {
                old(self).factories().keys()
            } else {
                old(self).factories().keys().push(factory.kind())
            }),
    {
        let kind = factory.provider_type().to_owned();
        self.factories.insert(kind.as_str(), factory);
        assert forall|k: Seq<char>| #[trigger] self.factories()@.dom().contains(k) implies self.factories()@[k].kind()
            == k by {
            if k != factory.kind() {
                assert(old(self).factories()@.dom().contains(k));
            }
        }
    }

    /// Has the factory of this type make a provider.
    pub fn create(&self, provider_type: &str, config: &ProviderConfig) -> (r: Result<
        F::Product,
        LLMError,
    >)
        ensures
            self.factories()@.dom().contains(provider_type@)
                ==> self.factories()@[provider_type@].makes(*config, r),
            !self.factories()@.dom().contains(provider_type@) ==> (r matches Err(e) && e@
                == unknown_type_error(provider_type@)),
    {
        match self.factories.get(provider_type) {
            Some(factory) => factory.create(config),
            None => Err(
                error::configuration_error(
                    text::cat("Unknown provider type: ", provider_type).as_str(),
                    "provider_type",
                ),
            ),
        }
    }

    /// Whether there is a factory of this type.
    pub fn is_registered(&self, provider_type: &str) -> (r: bool)
        ensures
            r == self.factories()@.dom().contains(provider_type@),
    {
        self.factories.get(provider_type).is_some()
    }

    /// The types of all factories.
    pub fn registered_types(&self) -> (r: Vec<&str>)
        ensures
            r@.map_values(|s: &str| s@) == self.factories().keys(),
            forall|k: Seq<char>| #[trigger]
                self.factories()@.dom().contains(k) <==> self.factories().keys().contains(k),
    {
        let mut out: Vec<&str> = Vec::new();
        let mut i: usize = 0;
        while i < self.factories.len()
            invariant
                i <= self.factories.keys().len(),
                out@.len() == i,
                forall|j: int| 0 <= j < i ==> (#[trigger] out@[j])@ == self.factories.keys()[j],
            decreases self.factories.keys().len() - i,
        {
            out.push(self.factories.key_at(i));
            i = i + 1;
        }
        proof {
            self.factories.lemma_keys();
        }
        assert(out@.map_values(|s: &str| s@) =~= self.factories.keys());
        out
    }
}

/// A provider that reports its limits is healthy, with the limits that it reports; the error of one
/// that does not is handed on.
pub proof fn law_health(name: Seq<char>, s: RateLimitStatus, e: ErrorView)
    ensures
        health_from(name, Err(e)) == Err::<HealthView, ErrorView>(e),
        health_from(name, Ok(s)) matches Ok(h) && h.name == name && h.healthy
            && h.latency_ms is None
            && h.error is None && h.rate_limit_remaining == s.remaining && h.rate_limit_total
            == s.limit,
{
}

/// The errors of a provider that cannot stream and of a type that is not known name what they are
/// about.
pub proof fn law_unsupported(name: Seq<char>)
    ensures
        no_streaming(name) matches ErrorView::UnsupportedError { operation, provider, model }
            && operation == "streaming"@ && provider == Some(name) && model is None,
        unknown_type_error(name) matches ErrorView::ConfigurationError { message, field } && message
            == "Unknown provider type: "@ + name && field == Some("provider_type"@),
{
}

/// A model of which nothing more is known stands under its identifier, with what the provider says
/// of its abilities and prices.
pub proof fn law_bare_models(
    id: Seq<char>,
    provider: Seq<char>,
    abilities: Option<CapabilitiesView>,
    prices: Option<ModelPricing>,
)
    ensures
        ({
            let m = bare_model(id, provider, abilities, prices);
            &&& m.id == id
            &&& m.name == id
            &&& m.provider == provider
            &&& m.description is None
            &&& m.context_window == 0
            &&& m.max_output_tokens == 0
            &&& abilities matches Some(a) ==> m.capabilities == a
            &&& abilities is None ==> !m.capabilities.function_calling && !m.capabilities.vision
                && !m.capabilities.streaming && !m.capabilities.json_mode
                && !m.capabilities.caching && m.capabilities.max_tokens == 0
                && m.capabilities.context_window == 0 && m.capabilities.input_modalities.len() == 0
                && m.capabilities.output_modalities.len() == 0 && m.capabilities.strengths.len()
                == 0
            &&& m.pricing == prices
            &&& m.created == 0
            &&& m.available
        }),
{
}

/// A model is found if and only if one of the models has the identifier; the one that is found has
/// it, and none before it in the list does.
pub proof fn law_models_are_found(
    models: Seq<FullModelInfoView>,
    id: Seq<char>,
    found: Option<FullModelInfoView>,
    k: int,
)
    requires
        is_first_with_id(models, id, found),
        0 <= k < models.len(),
        models[k].id == id,
        forall|j: int| 0 <= j < k ==> (#[trigger] models[j]).id != id,
    ensures
        found == Some(models[k]),
{
    match found {
        Some(m) => {
            let i = choose|i: int|
                0 <= i < models.len() && #[trigger] models[i] == m && forall|j: int|
                    0 <= j < i ==> (#[trigger] models[j]).id != id;
            if i < k {
                assert(models[i].id != id);
            }
            if k < i {
                assert(models[k].id != id);
            }
        },
        None => {},
    }
}

/// The health of a provider is seen as it is held.
pub proof fn law_health_as_seen(h: ProviderHealth)
    ensures
        h@.name == h.name@,
        h@.healthy == h.healthy,
        h@.latency_ms == h.latency_ms,
        types::same_text(h@.error, h.error),
        h@.rate_limit_remaining == h.rate_limit_remaining,
        h@.rate_limit_total == h.rate_limit_total,
{
}

/// What may be missing is seen as it is where it is there, and as missing where it is not.
pub proof fn law_options_as_seen(
    m: FullModelInfo,
    c: ModelCapabilities,
    s: RateLimitStatus,
    e: LLMError,
)
    ensures
        opt_model(Some(m)) == Some(m@),
        opt_model(None) is None,
        opt_capabilities(Some(c)) == Some(c@),
        opt_capabilities(None) is None,
        status_seen(Ok(s)) == Ok::<RateLimitStatus, ErrorView>(s),
        status_seen(Err(e)) == Err::<RateLimitStatus, ErrorView>(e@),
{
}

} // verus!
