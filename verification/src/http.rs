//! What the service answers to a request.
//!
//! The route takes a JSON document with a `text` and answers with a JSON
//! document with a `summary`. Reading and writing JSON is done outside this
//! module: it is handed what was read and says which status and which body go
//! back. A request that cannot be served gets an error status of its own and
//! leaves the engine as it was for the next one.

use crate::loader::EngineHolder;
use crate::session::{is_single_batch, summarize, summary_of, EngineFault, InferenceError};
use crate::text_of;
use vstd::prelude::*;

verus! {

/// The request was served.
pub const STATUS_OK: u16 = 200;

/// The request itself is at fault.
pub const STATUS_BAD_REQUEST: u16 = 400;

/// The engine failed on the request.
pub const STATUS_INTERNAL_SERVER_ERROR: u16 = 500;

/// There is no engine to serve the request.
pub const STATUS_SERVICE_UNAVAILABLE: u16 = 503;

/// What was read off the wire.
#[derive(Clone, Debug)]
pub enum RequestBody {
    /// The body is not a JSON document of the expected shape.
    Malformed,
    /// A JSON document, with its `text` if it has one.
    Document { text: Option<String> },
}

/// What is wrong with a request.
#[derive(Clone, Copy, Debug, PartialEq, Eq, Structural)]
pub enum RequestValidationError {
    MalformedJson,
    MissingText,
}

/// Why a request was not served.
#[derive(Clone, Copy, Debug, PartialEq, Eq, Structural)]
pub enum ServiceError {
    RequestValidation(RequestValidationError),
    Inference(InferenceError),
}

/// The body of an answer.
#[derive(Clone, Debug)]
pub enum ReplyBody {
    Summary { summary: String },
    Failure { error: ServiceError },
}

/// An answer: the status and the body to send.
#[derive(Clone, Debug)]
pub struct Reply {
    pub status: u16,
    pub body: ReplyBody,
}

/// The text that a request asks to summarize.
pub open spec fn requested_text(body: RequestBody) -> Result<Seq<char>, RequestValidationError> {
    match body {
        RequestBody::Malformed => Err(RequestValidationError::MalformedJson),
        RequestBody::Document { text: None } => Err(RequestValidationError::MissingText),
        RequestBody::Document { text: Some(text) } => Ok(text@),
    }
}

/// The status that reports an error: the client's errors are 400, a missing
/// engine is 503 and a failed run is 500.
pub open spec fn status_for(error: ServiceError) -> u16 {
    match error {
        ServiceError::RequestValidation(_) => STATUS_BAD_REQUEST,
        ServiceError::Inference(InferenceError::EngineUnavailable) => STATUS_SERVICE_UNAVAILABLE,
        ServiceError::Inference(_) => STATUS_INTERNAL_SERVER_ERROR,
    }
}

/// The answer to a request with a given end: 200 and the summary, or the
/// error and its status.
pub open spec fn reply_for(outcome: Result<Seq<char>, ServiceError>) -> (u16, Result<
    Seq<char>,
    ServiceError,
>) {
    match outcome {
        Ok(summary) => (STATUS_OK, Ok(summary)),
        Err(error) => (status_for(error), Err(error)),
    }
}

/// An inference result as the end of a request.
pub open spec fn served(result: Result<Seq<char>, InferenceError>) -> Result<
    Seq<char>,
    ServiceError,
> {
    match result {
        Ok(summary) => Ok(summary),
        Err(e) => Err(ServiceError::Inference(e)),
    }
}

impl ServiceError {
    /// The status that reports this error.
    pub fn status(&self) -> (r: u16)
        ensures
            r == status_for(*self),
    {
        match self {
            ServiceError::RequestValidation(_) => STATUS_BAD_REQUEST,
            ServiceError::Inference(InferenceError::EngineUnavailable) => {
                STATUS_SERVICE_UNAVAILABLE
            },
            ServiceError::Inference(_) => STATUS_INTERNAL_SERVER_ERROR,
        }
    }

    /// A short name of the error for the body of the answer.
    pub fn label(&self) -> (r: &'static str)
        ensures
            r@ == (match *self {
                ServiceError::RequestValidation(RequestValidationError::MalformedJson) =>
                    "malformed request"@,
                ServiceError::RequestValidation(RequestValidationError::MissingText) =>
                    "missing text"@,
                ServiceError::Inference(InferenceError::EngineUnavailable) =>
                    "engine unavailable"@,
                ServiceError::Inference(InferenceError::EngineFailed) => "inference failed"@,
                ServiceError::Inference(InferenceError::NoOutput) => "no summary"@,
            }),
    {
        match self {
            ServiceError::RequestValidation(RequestValidationError::MalformedJson) => {
                "malformed request"
            },
            ServiceError::RequestValidation(RequestValidationError::MissingText) => {
                "missing text"
            },
            ServiceError::Inference(InferenceError::EngineUnavailable) => "engine unavailable",
            ServiceError::Inference(InferenceError::EngineFailed) => "inference failed",
            ServiceError::Inference(InferenceError::NoOutput) => "no summary",
        }
    }
}

impl Reply {
    /// The status and, as characters, the summary or else the error.
    pub open spec fn view(&self) -> (u16, Result<Seq<char>, ServiceError>) {
        (
            self.status,
            match self.body {
                ReplyBody::Summary { summary } => Ok(summary@),
                ReplyBody::Failure { error } => Err(error),
            },
        )
    }

    /// Whether the answer reports success.
    pub fn is_success(&self) -> (r: bool)
        ensures
            r == (200 <= self.status < 300),
    {
        200 <= self.status && self.status < 300
    }
}

/// Checks a request and takes its text out.
pub fn validate_request(body: RequestBody) -> (r: Result<String, RequestValidationError>)
    ensures
        text_of(r) == requested_text(body),
{
    match body {
        RequestBody::Malformed => Err(RequestValidationError::MalformedJson),
        RequestBody::Document { text: None } => Err(RequestValidationError::MissingText),
        RequestBody::Document { text: Some(text) } => Ok(text),
    }
}

/// Turns the end of a request into the answer to send.
pub fn reply_to(outcome: Result<String, ServiceError>) -> (reply: Reply)
    ensures
        reply@ == reply_for(text_of(outcome)),
{
    match outcome {
        Ok(summary) => Reply { status: STATUS_OK, body: ReplyBody::Summary { summary } },
        Err(error) => Reply { status: error.status(), body: ReplyBody::Failure { error } },
    }
}

/// Serves one request: checks it, summarizes its text with the engine in
/// place and answers. A request without a text is answered without the engine
/// being run. The holder is only read, so a request that fails leaves the
/// engine to the next one.
pub fn handle_request<E, R>(holder: &EngineHolder<E>, body: RequestBody, run: R) -> (reply:
    Reply) where R: FnOnce(&E, Vec<String>) -> Result<Vec<String>, EngineFault>
    requires
        requested_text(body) matches Ok(text) ==> (holder@ matches Some(pair) ==> forall|
            batch: Vec<String>,
        | is_single_batch(batch@, text) ==> call_requires(run, (&pair.1, batch))),
    ensures
        match requested_text(body) {
            Err(e) => reply@ == reply_for(Err(ServiceError::RequestValidation(e))),
            Ok(text) => match holder@ {
                None => reply@ == reply_for(
                    Err(ServiceError::Inference(InferenceError::EngineUnavailable)),
                ),
                Some(pair) => exists|
                    batch: Vec<String>,
                    outcome: Result<Vec<String>, EngineFault>,
                |
                    {
                        &&& is_single_batch(batch@, text)
                        &&& #[trigger] call_ensures(run, (&pair.1, batch), outcome)
                        &&& reply@ == reply_for(served(summary_of(outcome)))
                    },
            },
        },
{
    match validate_request(body) {
        Err(e) => reply_to(Err(ServiceError::RequestValidation(e))),
        Ok(text) => match summarize(holder, text.as_str(), run) {
            Ok(summary) => reply_to(Ok(summary)),
            Err(e) => reply_to(Err(ServiceError::Inference(e))),
        },
    }
}

/// Only a summary is answered with a success status: every answer carries
/// 200 with a summary or an error with a status from 400 to 599, a bad
/// request one below 500 and a failed inference one from 500 on.
pub proof fn lemma_status_tells_the_outcome(outcome: Result<Seq<char>, ServiceError>)
    ensures
        reply_for(outcome).0 == STATUS_OK <==> outcome is Ok,
        outcome is Ok ==> reply_for(outcome).1 == outcome,
        outcome matches Err(error) ==> reply_for(outcome).1 == outcome && 400 <= reply_for(
            outcome,
        ).0 < 600,
        outcome matches Err(ServiceError::RequestValidation(_)) ==> 400 <= reply_for(outcome).0
            < 500,
        outcome matches Err(ServiceError::Inference(_)) ==> 500 <= reply_for(outcome).0 < 600,
{
}

} // verus!
