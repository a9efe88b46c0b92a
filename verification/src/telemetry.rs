//! What is recorded of operations, as data.
//!
//! Points in time and durations are nanoseconds of one monotonic clock, whose readings the caller
//! hands in.

use crate::error::LLMError;
use crate::text;
use crate::types::{ChatCompletionRequest, ChatCompletionResponse, Chunk};
use vstd::prelude::*;

verus! {

/// How much an event matters.
#[derive(Debug, Clone, Copy, PartialEq, Eq, Structural)]
pub enum Level {
    Trace,
    Debug,
    Info,
    Error,
}

/// An event to be written to the log: its level, its message, and its fields in order.
#[derive(Debug, Clone, PartialEq)]
pub struct LogEvent {
    pub level: Level,
    pub message: &'static str,
    pub fields: Vec<(&'static str, String)>,
}

/// An event, mathematically.
pub struct LogEventView {
    pub level: Level,
    pub message: Seq<char>,
    pub fields: Seq<(Seq<char>, Seq<char>)>,
}

/// The views of some fields.
pub open spec fn fields_view(fields: Seq<(&'static str, String)>) -> Seq<(Seq<char>, Seq<char>)> {
    fields.map_values(|f: (&'static str, String)| (f.0@, f.1@))
}

impl View for LogEvent {
    type V = LogEventView;

    open spec fn view(&self) -> LogEventView {
        LogEventView {
            level: self.level,
            message: self.message@,
            fields: fields_view(self.fields@),
        }
    }
}

/// The whole milliseconds from one moment to another; zero where the second is not the later one.
pub open spec fn millis_between(start: u64, now: u64) -> nat {
    if now >= start {
        ((now - start) / 1_000_000) as nat
    } else {
        0
    }
}

/// A span of an operation.
#[derive(Debug)]
pub struct TelemetrySpan {
    name: &'static str,
    start: u64,
    fields: Vec<(&'static str, String)>,
}

impl TelemetrySpan {
    /// The name.
    pub closed spec fn title(&self) -> Seq<char> {
        self.name@
    }

    /// The moment at which the span began.
    pub closed spec fn started(&self) -> u64 {
        self.start
    }

    /// The fields.
    pub closed spec fn fields(&self) -> Seq<(Seq<char>, Seq<char>)> {
        fields_view(self.fields@)
    }

    /// A span that begins now.
    pub fn new(name: &'static str, now: u64) -> (r: TelemetrySpan)
        ensures
            r.title() == name@,
            r.started() == now,
            r.fields() == Seq::<(Seq<char>, Seq<char>)>::empty(),
    {
        let r = TelemetrySpan { name, start: now, fields: Vec::new() };
        assert(r.fields() =~= Seq::<(Seq<char>, Seq<char>)>::empty());
        r
    }

    /// Adds a field.
    pub fn with_field(self, key: &'static str, value: &str) -> (r: TelemetrySpan)
        ensures
            r.title() == self.title(),
            r.started() == self.started(),
            r.fields() == self.fields().push((key@, value@)),
    {
        let ghost before = self.fields@;
        let mut fields = self.fields;
        fields.push((key, value.to_owned()));
        assert(fields_view(fields@) =~= fields_view(before).push((key@, value@)));
        TelemetrySpan { name: self.name, start: self.start, fields }
    }

    /// The event of a request that is sent.
    pub fn record_request(&self, request: &ChatCompletionRequest) -> (r: LogEvent)
        ensures
            r@ == (LogEventView {
                level: Level::Debug,
                message: "LLM request started"@,
                fields: seq![
                    ("provider"@, "unknown"@),
                    ("model"@, request.model@),
                    ("messages"@, text::decimal(request.messages@.len())),
                ],
            }),
    {
        let mut fields: Vec<(&'static str, String)> = Vec::new();
        fields.push(("provider", "unknown".to_owned()));
        fields.push(("model", request.model.clone()));
        fields.push(("messages", text::decimal_text(request.messages.len() as u64)));
        let r = LogEvent { level: Level::Debug, message: "LLM request started", fields };
        assert(r@.fields =~= seq![
            ("provider"@, "unknown"@),
            ("model"@, request.model@),
            ("messages"@, text::decimal(request.messages@.len())),
        ]);
        r
    }

    /// The event of a response that came now.
    pub fn record_response(&self, response: &ChatCompletionResponse, now: u64) -> (r: LogEvent)
        ensures
            r@ == (LogEventView {
                level: Level::Debug,
                message: "LLM response received"@,
                fields: seq![
                    ("provider"@, response.model@),
                    ("choices"@, text::decimal(response.choices@.len())),
                    ("elapsed_ms"@, text::decimal(millis_between(self.started(), now))),
                ],
            }),
    {
        let elapsed: u64 = if now >= self.start {
            (now - self.start) / 1_000_000
        } else {
            0
        };
        let mut fields: Vec<(&'static str, String)> = Vec::new();
        fields.push(("provider", response.model.clone()));
        fields.push(("choices", text::decimal_text(response.choices.len() as u64)));
        fields.push(("elapsed_ms", text::decimal_text(elapsed)));
        let r = LogEvent { level: Level::Debug, message: "LLM response received", fields };
        assert(r@.fields =~= seq![
            ("provider"@, response.model@),
            ("choices"@, text::decimal(response.choices@.len())),
            ("elapsed_ms"@, text::decimal(millis_between(self.started(), now))),
        ]);
        r
    }

    /// The event of a chunk that came.
    pub fn record_chunk(&self, chunk: &Chunk) -> (r: LogEvent)
        ensures
            r@ == (LogEventView {
                level: Level::Trace,
                message: "Streaming chunk received"@,
                fields: seq![("provider"@, "unknown"@), ("model"@, chunk@.model)],
            }),
    {
        let model = match chunk {
            Chunk::Completion(c) => c.model.clone(),
        };
        let mut fields: Vec<(&'static str, String)> = Vec::new();
        fields.push(("provider", "unknown".to_owned()));
        fields.push(("model", model));
        let r = LogEvent { level: Level::Trace, message: "Streaming chunk received", fields };
        assert(r@.fields =~= seq![("provider"@, "unknown"@), ("model"@, chunk@.model)]);
        r
    }

    /// The event of an error.
    pub fn record_error(&self, error: &LLMError) -> (r: LogEvent)
        ensures
            r@ == (LogEventView {
                level: Level::Error,
                message: "LLM operation failed"@,
                fields: seq![("error_type"@, error@.displayed())],
            }),
    {
        let mut fields: Vec<(&'static str, String)> = Vec::new();
        fields.push(("error_type", error.display()));
        let r = LogEvent { level: Level::Error, message: "LLM operation failed", fields };
        assert(r@.fields =~= seq![("error_type"@, error@.displayed())]);
        r
    }
}

/// What is known of an operation.
#[derive(Debug, Clone)]
pub struct LlmTelemetryAttributes {
    pub provider: String,
    pub model: String,
    pub operation: &'static str,
    pub request_id: Option<String>,
}

impl LlmTelemetryAttributes {
    /// Attributes without a request identifier.
    pub fn new(provider: String, model: String, operation: &'static str) -> (r:
        LlmTelemetryAttributes)
        ensures
            r.provider == provider,
            r.model == model,
            r.operation@ == operation@,
            r.request_id is None,
    {
        LlmTelemetryAttributes { provider, model, operation, request_id: None }
    }

    /// Sets the request identifier.
    pub fn with_request_id(self, id: String) -> (r: LlmTelemetryAttributes)
        ensures
            r.provider == self.provider,
            r.model == self.model,
            r.operation == self.operation,
            r.request_id == Some(id),
    {
        LlmTelemetryAttributes {
            provider: self.provider,
            model: self.model,
            operation: self.operation,
            request_id: Some(id),
        }
    }
}

/// Records operations as events; nothing where nothing is to be recorded.
pub trait LlmTelemetryRecorder {
    fn record_request_started(&self, attrs: &LlmTelemetryAttributes) -> Option<LogEvent>;

    fn record_request_completed(&self, attrs: &LlmTelemetryAttributes, duration: u64) -> Option<
        LogEvent,
    >;

    fn record_error(&self, attrs: &LlmTelemetryAttributes, error: &LLMError) -> Option<LogEvent>;

    fn record_chunk(&self, attrs: &LlmTelemetryAttributes, chunk: &Chunk) -> Option<LogEvent>;
}

/// Records nothing.
#[derive(Debug, Clone, Copy)]
pub struct NoopTelemetryRecorder;

impl Default for NoopTelemetryRecorder {
    fn default() -> (r: NoopTelemetryRecorder)
        ensures
            r == NoopTelemetryRecorder,
    {
        NoopTelemetryRecorder
    }
}

impl LlmTelemetryRecorder for NoopTelemetryRecorder {
    fn record_request_started(&self, attrs: &LlmTelemetryAttributes) -> (r: Option<LogEvent>)
        ensures
            r is None,
    {
        None
    }

    fn record_request_completed(&self, attrs: &LlmTelemetryAttributes, duration: u64) -> (r: Option<
        LogEvent,
    >)
        ensures
            r is None,
    {
        None
    }

    fn record_error(&self, attrs: &LlmTelemetryAttributes, error: &LLMError) -> (r: Option<LogEvent>)
        ensures
            r is None,
    {
        None
    }

    fn record_chunk(&self, attrs: &LlmTelemetryAttributes, chunk: &Chunk) -> (r: Option<LogEvent>)
        ensures
            r is None,
    {
        None
    }
}

/// Records operations for the log.
#[derive(Debug, Clone, Copy)]
pub struct TracingTelemetryRecorder;

impl TracingTelemetryRecorder {
    /// A recorder.
    pub fn new() -> (r: TracingTelemetryRecorder)
        ensures
            r == TracingTelemetryRecorder,
    {
        TracingTelemetryRecorder
    }
}

/// The fields that name an operation.
pub open spec fn attribute_fields(attrs: LlmTelemetryAttributes) -> Seq<(Seq<char>, Seq<char>)> {
    seq![
        ("provider"@, attrs.provider@),
        ("model"@, attrs.model@),
        ("operation"@, attrs.operation@),
    ]
}

fn make_attribute_fields(attrs: &LlmTelemetryAttributes) -> (r: Vec<(&'static str, String)>)
    ensures
        fields_view(r@) == attribute_fields(*attrs),
{
    let mut fields: Vec<(&'static str, String)> = Vec::new();
    fields.push(("provider", attrs.provider.clone()));
    fields.push(("model", attrs.model.clone()));
    fields.push(("operation", attrs.operation.to_owned()));
    assert(fields_view(fields@) =~= attribute_fields(*attrs));
    fields
}

fn add_field(fields: &mut Vec<(&'static str, String)>, key: &'static str, value: String)
    ensures
        fields_view(final(fields)@) == fields_view(old(fields)@).push((key@, value@)),
{
    let ghost view = value@;
    fields.push((key, value));
    assert(fields_view(fields@) =~= fields_view(old(fields)@).push((key@, view)));
}

impl LlmTelemetryRecorder for TracingTelemetryRecorder {
    /// The span of a request.
    fn record_request_started(&self, attrs: &LlmTelemetryAttributes) -> (r: Option<LogEvent>)
        ensures
            r matches Some(e) && e@ == (LogEventView {
                level: Level::Info,
                message: "llm.request"@,
                fields: attribute_fields(*attrs).push(
                    (
                        "request_id"@,
                        text::text_or(text::opt_text(attrs.request_id), Seq::empty()),
                    ),
                ),
            }),
    {
        let id = match &attrs.request_id {
            Some(s) => s.clone(),
            None => String::new(),
        };
        let mut fields = make_attribute_fields(attrs);
        add_field(&mut fields, "request_id", id);
        Some(LogEvent { level: Level::Info, message: "llm.request", fields })
    }

    /// The event of a request that was completed.
    fn record_request_completed(&self, attrs: &LlmTelemetryAttributes, duration: u64) -> (r: Option<
        LogEvent,
    >)
        ensures
            r matches Some(e) && e@ == (LogEventView {
                level: Level::Info,
                message: "LLM request completed"@,
                fields: attribute_fields(*attrs).push(
                    ("duration_ms"@, text::decimal((duration / 1_000_000) as nat)),
                ),
            }),
    {
        let mut fields = make_attribute_fields(attrs);
        add_field(&mut fields, "duration_ms", text::decimal_text(duration / 1_000_000));
        Some(LogEvent { level: Level::Info, message: "LLM request completed", fields })
    }

    /// The event of a request that failed.
    fn record_error(&self, attrs: &LlmTelemetryAttributes, error: &LLMError) -> (r: Option<LogEvent>)
        ensures
            r matches Some(e) && e@ == (LogEventView {
                level: Level::Error,
                message: "LLM request failed"@,
                fields: attribute_fields(*attrs).push(("error"@, error@.displayed())),
            }),
    {
        let mut fields = make_attribute_fields(attrs);
        add_field(&mut fields, "error", error.display());
        Some(LogEvent { level: Level::Error, message: "LLM request failed", fields })
    }

    /// The event of a chunk that came.
    fn record_chunk(&self, attrs: &LlmTelemetryAttributes, chunk: &Chunk) -> (r: Option<LogEvent>)
        ensures
            r matches Some(e) && e@ == (LogEventView {
                level: Level::Trace,
                message: "Streaming chunk"@,
                fields: seq![("provider"@, attrs.provider@), ("model"@, attrs.model@)],
            }),
    {
        let mut fields: Vec<(&'static str, String)> = Vec::new();
        fields.push(("provider", attrs.provider.clone()));
        fields.push(("model", attrs.model.clone()));
        assert(fields_view(fields@) =~= seq![
            ("provider"@, attrs.provider@),
            ("model"@, attrs.model@),
        ]);
        Some(LogEvent { level: Level::Trace, message: "Streaming chunk", fields })
    }
}

/// The time between two moments is counted in whole milliseconds, and never runs backwards.
pub proof fn law_elapsed_time(start: u64, now: u64)
    ensures
        now >= start ==> millis_between(start, now) * 1_000_000 <= now - start < (millis_between(
            start,
            now,
        ) + 1) * 1_000_000,
        now <= start ==> millis_between(start, now) == 0,
{
}

/// The fields that name an operation are its provider, its model and what it is, in this order.
pub proof fn law_operations_are_named(attrs: LlmTelemetryAttributes)
    ensures
        attribute_fields(attrs).len() == 3,
        attribute_fields(attrs)[0] == ("provider"@, attrs.provider@),
        attribute_fields(attrs)[1] == ("model"@, attrs.model@),
        attribute_fields(attrs)[2] == ("operation"@, attrs.operation@),
{
}

/// An event says what it holds: its level, its message and each of its fields.
pub proof fn law_events_as_seen(e: LogEvent, i: int)
    requires
        0 <= i < e.fields@.len(),
    ensures
        e@.level == e.level,
        e@.message == e.message@,
        e@.fields.len() == e.fields@.len(),
        e@.fields[i] == (e.fields@[i].0@, e.fields@[i].1@),
{
}

} // verus!
