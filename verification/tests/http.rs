use std::cell::Cell;

use summarizer::config::{select_config, ModelType};
use summarizer::http::{
    handle_request, reply_to, validate_request, Reply, ReplyBody, RequestBody,
    RequestValidationError, ServiceError, STATUS_BAD_REQUEST, STATUS_INTERNAL_SERVER_ERROR,
    STATUS_OK, STATUS_SERVICE_UNAVAILABLE,
};
use summarizer::loader::EngineHolder;
use summarizer::session::{EngineFault, InferenceError};

struct StubEngine;

fn holder_with_engine() -> EngineHolder<StubEngine> {
    let mut holder = EngineHolder::new();
    let config = select_config(ModelType::Bart, 10, false).unwrap();
    holder.get_or_load(config, |_| Ok(StubEngine)).unwrap();
    holder
}

fn document(text: &str) -> RequestBody {
    RequestBody::Document { text: Some(text.to_string()) }
}

fn summary_in(reply: &Reply) -> Option<&str> {
    match &reply.body {
        ReplyBody::Summary { summary } => Some(summary.as_str()),
        ReplyBody::Failure { .. } => None,
    }
}

fn error_in(reply: &Reply) -> Option<ServiceError> {
    match &reply.body {
        ReplyBody::Summary { .. } => None,
        ReplyBody::Failure { error } => Some(*error),
    }
}

const ALL_ERRORS: [ServiceError; 5] = [
    ServiceError::RequestValidation(RequestValidationError::MalformedJson),
    ServiceError::RequestValidation(RequestValidationError::MissingText),
    ServiceError::Inference(InferenceError::EngineUnavailable),
    ServiceError::Inference(InferenceError::EngineFailed),
    ServiceError::Inference(InferenceError::NoOutput),
];

#[test]
fn status_numbers() {
    assert_eq!(STATUS_OK, 200);
    assert_eq!(STATUS_BAD_REQUEST, 400);
    assert_eq!(STATUS_INTERNAL_SERVER_ERROR, 500);
    assert_eq!(STATUS_SERVICE_UNAVAILABLE, 503);
}

#[test]
fn valid_request_is_answered_with_the_summary() {
    let holder = holder_with_engine();
    let reply = handle_request(&holder, document("a long text"), |_, batch| {
        assert_eq!(batch, vec!["a long text".to_string()]);
        Ok(vec!["short".to_string()])
    });
    assert_eq!(reply.status, 200);
    assert!(reply.is_success());
    assert_eq!(summary_in(&reply), Some("short"));
}

#[test]
fn empty_document_is_a_client_error() {
    let holder = holder_with_engine();
    let calls = Cell::new(0u32);
    let reply = handle_request(&holder, RequestBody::Document { text: None }, |_, batch| {
        calls.set(calls.get() + 1);
        Ok(batch)
    });
    assert_eq!(reply.status, 400);
    assert!(!reply.is_success());
    assert_eq!(
        error_in(&reply),
        Some(ServiceError::RequestValidation(RequestValidationError::MissingText))
    );
    assert_eq!(calls.get(), 0);
}

#[test]
fn malformed_body_is_a_client_error() {
    let holder = holder_with_engine();
    let calls = Cell::new(0u32);
    let reply = handle_request(&holder, RequestBody::Malformed, |_, batch| {
        calls.set(calls.get() + 1);
        Ok(batch)
    });
    assert_eq!(reply.status, 400);
    assert_eq!(
        error_in(&reply),
        Some(ServiceError::RequestValidation(RequestValidationError::MalformedJson))
    );
    assert_eq!(calls.get(), 0);
}

#[test]
fn failing_engine_is_a_server_error_and_the_next_request_is_served() {
    let holder = holder_with_engine();
    let failed = handle_request(&holder, document("text"), |_, _| Err(EngineFault));
    assert_eq!(failed.status, 500);
    assert!(!failed.is_success());
    assert_eq!(error_in(&failed), Some(ServiceError::Inference(InferenceError::EngineFailed)));
    assert!(holder.is_loaded());

    let served = handle_request(&holder, document("text"), |_, batch| Ok(batch));
    assert_eq!(served.status, 200);
    assert_eq!(summary_in(&served), Some("text"));
}

#[test]
fn engine_without_output_is_a_server_error() {
    let holder = holder_with_engine();
    let reply = handle_request(&holder, document("text"), |_, _| Ok(Vec::new()));
    assert_eq!(reply.status, 500);
    assert_eq!(error_in(&reply), Some(ServiceError::Inference(InferenceError::NoOutput)));
}

#[test]
fn missing_engine_is_service_unavailable() {
    let holder: EngineHolder<StubEngine> = EngineHolder::new();
    let reply = handle_request(&holder, document("text"), |_, batch| Ok(batch));
    assert_eq!(reply.status, 503);
    assert_eq!(error_in(&reply), Some(ServiceError::Inference(InferenceError::EngineUnavailable)));
}

#[test]
fn bad_request_is_reported_even_without_an_engine() {
    let holder: EngineHolder<StubEngine> = EngineHolder::new();
    let reply = handle_request(&holder, RequestBody::Document { text: None }, |_, batch| Ok(batch));
    assert_eq!(reply.status, 400);
}

#[test]
fn validate_request_takes_the_text_out() {
    assert_eq!(validate_request(document("hello")), Ok("hello".to_string()));
    assert_eq!(validate_request(document("")), Ok(String::new()));
    assert_eq!(
        validate_request(RequestBody::Document { text: None }),
        Err(RequestValidationError::MissingText)
    );
    assert_eq!(validate_request(RequestBody::Malformed), Err(RequestValidationError::MalformedJson));
}

#[test]
fn every_error_has_its_status() {
    let expected = [400, 400, 503, 500, 500];
    for (error, status) in ALL_ERRORS.iter().zip(expected) {
        assert_eq!(error.status(), status);
        let reply = reply_to(Err(*error));
        assert_eq!(reply.status, status);
        assert!(!reply.is_success());
        assert_eq!(error_in(&reply), Some(*error));
    }
}

#[test]
fn only_a_summary_is_a_success() {
    let reply = reply_to(Ok("summary".to_string()));
    assert_eq!(reply.status, 200);
    assert!(reply.is_success());
    assert_eq!(summary_in(&reply), Some("summary"));
    for error in ALL_ERRORS {
        let status = reply_to(Err(error)).status;
        assert!((400..600).contains(&status));
    }
}

#[test]
fn every_error_has_its_label() {
    let expected = [
        "malformed request",
        "missing text",
        "engine unavailable",
        "inference failed",
        "no summary",
    ];
    for (error, label) in ALL_ERRORS.iter().zip(expected) {
        assert_eq!(error.label(), label);
    }
}
