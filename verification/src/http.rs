//! HTTP requests as data, and what comes back of them.

use crate::error::{ErrorView, LLMError};
use crate::json;
use crate::json::{Json, JsonView};
use crate::text;
use vstd::prelude::*;

verus! {

/// The method of a request.
#[derive(Debug, Clone, Copy, PartialEq, Eq, Structural)]
pub enum Method {
    Get,
    Post,
}

/// A request to be sent.
#[derive(Debug, PartialEq)]
pub struct HttpRequest {
    pub method: Method,
    pub url: String,
    pub headers: Vec<(String, String)>,
    pub body: Option<Json>,
}

/// A request, mathematically.
pub struct HttpRequestView {
    pub method: Method,
    pub url: Seq<char>,
    pub headers: Seq<(Seq<char>, Seq<char>)>,
    pub body: Option<JsonView>,
}

/// The views of some headers.
pub open spec fn headers_view(headers: Seq<(String, String)>) -> Seq<(Seq<char>, Seq<char>)> {
    headers.map_values(|h: (String, String)| (h.0@, h.1@))
}

impl View for HttpRequest {
    type V = HttpRequestView;

    open spec fn view(&self) -> HttpRequestView {
        HttpRequestView {
            method: self.method,
            url: self.url@,
            headers: headers_view(self.headers@),
            body: json::json_opt(self.body),
        }
    }
}

/// Why no usable answer came.
#[derive(Debug, Clone, PartialEq)]
pub enum HttpFailure {
    /// The request could not be sent, or no answer came.
    Unsent { message: String },
    /// The answer has a status that is no success.
    Refused { status: String, code: u16, body: Option<String> },
}

/// A failure, mathematically.
pub enum FailureView {
    Unsent { message: Seq<char> },
    Refused { status: Seq<char>, code: u16, body: Option<Seq<char>> },
}

impl View for HttpFailure {
    type V = FailureView;

    open spec fn view(&self) -> FailureView {
        match *self {
            HttpFailure::Unsent { message } => FailureView::Unsent { message: message@ },
            HttpFailure::Refused { status, code, body } => FailureView::Refused {
                status: status@,
                code,
                body: text::opt_text(body),
            },
        }
    }
}

/// What came back of a request whose answer is to be JSON.
#[derive(Debug, PartialEq)]
pub enum HttpOutcome {
    /// No usable answer.
    Failed { failure: HttpFailure },
    /// The body of the answer is no JSON.
    Unreadable { message: String },
    /// The body of the answer.
    Answered { json: Json },
}

/// An outcome, mathematically.
pub enum OutcomeView {
    Failed { failure: FailureView },
    Unreadable { message: Seq<char> },
    Answered { json: JsonView },
}

impl View for HttpOutcome {
    type V = OutcomeView;

    open spec fn view(&self) -> OutcomeView {
        match *self {
            HttpOutcome::Failed { failure } => OutcomeView::Failed { failure: failure@ },
            HttpOutcome::Unreadable { message } => OutcomeView::Unreadable { message: message@ },
            HttpOutcome::Answered { json } => OutcomeView::Answered { json: json@ },
        }
    }
}

/// The error of a failure; `label` opens the message for a refused request.
pub open spec fn failure_error(failure: FailureView, label: Seq<char>) -> ErrorView {
    match failure {
        FailureView::Unsent { message } => ErrorView::HttpError {
            message,
            status_code: None,
            body: None,
        },
        FailureView::Refused { status, code, body } => ErrorView::HttpError {
            message: label + status,
            status_code: Some(code),
            body,
        },
    }
}

/// The JSON of an outcome, or the error that it stands for.
pub open spec fn answer(outcome: OutcomeView, label: Seq<char>, context: Seq<char>) -> Result<
    JsonView,
    ErrorView,
> {
    match outcome {
        OutcomeView::Failed { failure } => Err(failure_error(failure, label)),
        OutcomeView::Unreadable { message } => Err(
            ErrorView::SerializationError { message, context: Some(context) },
        ),
        OutcomeView::Answered { json } => Ok(json),
    }
}

/// The view of a result.
pub open spec fn seen<T: View>(r: Result<T, LLMError>) -> Result<T::V, ErrorView> {
    match r {
        Ok(v) => Ok(v@),
        Err(e) => Err(e@),
    }
}

/// The error of a failure.
pub fn error_of_failure(failure: HttpFailure, label: &str) -> (r: LLMError)
    ensures
        r@ == failure_error(failure@, label@),
{
    match failure {
        HttpFailure::Unsent { message } => LLMError::HttpError {
            message,
            status_code: None,
            body: None,
        },
        HttpFailure::Refused { status, code, body } => LLMError::HttpError {
            message: text::cat(label, status.as_str()),
            status_code: Some(code),
            body,
        },
    }
}

/// The JSON of an outcome, or the error that it stands for.
pub fn read_answer(outcome: HttpOutcome, label: &str, context: &str) -> (r: Result<Json, LLMError>)
    ensures
        seen(r) == answer(outcome@, label@, context@),
{
    match outcome {
        HttpOutcome::Failed { failure } => Err(error_of_failure(failure, label)),
        HttpOutcome::Unreadable { message } => Err(
            LLMError::SerializationError { message, context: Some(context.to_owned()) },
        ),
        HttpOutcome::Answered { json } => Ok(json),
    }
}

/// The header that says that the body is JSON.
pub open spec fn json_header() -> (Seq<char>, Seq<char>) {
    ("Content-Type"@, "application/json"@)
}

/// A header.
pub fn header(name: &str, value: &str) -> (r: (String, String))
    ensures
        (r.0@, r.1@) == (name@, value@),
{
    (name.to_owned(), value.to_owned())
}

/// An answer that came is handed on as it is. Without one the error says what went wrong: that the
/// request could not be sent, with the message; that it was refused, with the status behind the
/// label, the code and the body; or that the answer is no JSON, with the message and the context.
pub proof fn law_outcomes(
    j: JsonView,
    label: Seq<char>,
    context: Seq<char>,
    words: Seq<char>,
    code: u16,
    body: Option<Seq<char>>,
)
    ensures
        answer((OutcomeView::Answered { json: j }), label, context) == Ok::<JsonView, ErrorView>(j),
        answer(
            (OutcomeView::Failed { failure: FailureView::Unsent { message: words } }),
            label,
            context,
        ) == Err::<JsonView, ErrorView>(
            (ErrorView::HttpError { message: words, status_code: None, body: None }),
        ),
        answer(
            (OutcomeView::Failed { failure: FailureView::Refused { status: words, code, body } }),
            label,
            context,
        ) == Err::<JsonView, ErrorView>(
            (ErrorView::HttpError { message: label + words, status_code: Some(code), body }),
        ),
        answer((OutcomeView::Unreadable { message: words }), label, context) == Err::<
            JsonView,
            ErrorView,
        >((ErrorView::SerializationError { message: words, context: Some(context) })),
{
}

/// The error of a failure is the one that an outcome with that failure stands for.
pub proof fn law_failures(failure: FailureView, label: Seq<char>, context: Seq<char>)
    ensures
        answer((OutcomeView::Failed { failure }), label, context) == Err::<JsonView, ErrorView>(
            failure_error(failure, label),
        ),
        json_header() == ("Content-Type"@, "application/json"@),
{
}

/// A request is seen with its method, its URL, its headers in order, and its body.
pub proof fn law_requests_as_seen(r: HttpRequest, i: int)
    ensures
        r@.method == r.method,
        r@.url == r.url@,
        r@.headers.len() == r.headers@.len(),
        0 <= i < r.headers@.len() ==> r@.headers[i] == (r.headers@[i].0@, r.headers@[i].1@),
        match r.body {
            Some(b) => r@.body == Some(b@),
            None => r@.body is None,
        },
{
}

/// What came back is seen as it came.
pub proof fn law_outcomes_as_seen(o: HttpOutcome)
    ensures
        match o {
            HttpOutcome::Answered { json } => o@ == (OutcomeView::Answered { json: json@ }),
            HttpOutcome::Unreadable { message } => o@ == (OutcomeView::Unreadable {
                message: message@,
            }),
            HttpOutcome::Failed { failure: HttpFailure::Unsent { message } } => o@ == (
            OutcomeView::Failed { failure: FailureView::Unsent { message: message@ } }),
            HttpOutcome::Failed { failure: HttpFailure::Refused { status, code, body } } => o@
                matches OutcomeView::Failed {
                failure: FailureView::Refused { status: s, code: c, body: b },
            } && s == status@ && c == code && match body {
                Some(x) => b == Some(x@),
                None => b is None,
            },
        },
{
}

/// A result is seen as the value that it holds, or as the error in its place.
pub proof fn law_results_as_seen<T: View>(v: T, e: LLMError)
    ensures
        seen(Ok::<T, LLMError>(v)) == Ok::<T::V, ErrorView>(v@),
        seen(Err::<T, LLMError>(e)) == Err::<T::V, ErrorView>(e@),
{
}

} // verus!
