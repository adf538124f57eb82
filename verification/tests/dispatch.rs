//! Fail-fast dispatch over a handler's parameters.

use kanin::error::{HandlerError, RequestError, ServerError};
use kanin::extract::extract_pair;
use kanin::handler::dispatch;
use kanin::request::{Delivery, Request};
use kanin::Extract;

fn decode_err(text: &str) -> HandlerError {
    HandlerError::InvalidRequest(RequestError::DecodeError(text.to_string()))
}

#[test]
fn dispatch_with_no_failure_extracts_everything() {
    let plan = dispatch(vec![None, None, None]);
    assert_eq!(plan.attempted, 3);
    assert_eq!(plan.failure, None);
}

#[test]
fn dispatch_with_no_parameters_invokes_the_handler() {
    let plan = dispatch(vec![]);
    assert_eq!(plan.attempted, 0);
    assert_eq!(plan.failure, None);
}

#[test]
fn dispatch_stops_at_the_first_failure() {
    let plan = dispatch(vec![None, Some(decode_err("bad")), Some(decode_err("later"))]);
    assert_eq!(plan.attempted, 2);
    assert_eq!(plan.failure, Some(decode_err("bad")));
}

#[test]
fn dispatch_failing_first_attempts_only_one() {
    let plan = dispatch(vec![Some(decode_err("bad")), None]);
    assert_eq!(plan.attempted, 1);
    assert_eq!(plan.failure, Some(decode_err("bad")));
}

/// An extractor that always fails.
struct FailingExtractor;

impl Extract<u32> for FailingExtractor {
    type Error = HandlerError;

    fn extract(_req: &mut Request<u32>) -> Result<Self, HandlerError> {
        Err(HandlerError::Internal(ServerError::AckerAlreadyExtracted))
    }
}

/// A spy extractor that must never run.
struct PanickingExtractor;

impl Extract<u32> for PanickingExtractor {
    type Error = HandlerError;

    fn extract(_req: &mut Request<u32>) -> Result<Self, HandlerError> {
        panic!("the second extractor must never be invoked when the first fails");
    }
}

/// An extractor that succeeds.
struct UnitExtractor;

impl Extract<u32> for UnitExtractor {
    type Error = HandlerError;

    fn extract(_req: &mut Request<u32>) -> Result<Self, HandlerError> {
        Ok(UnitExtractor)
    }
}

fn request() -> Request<u32> {
    Request::new(
        Delivery {
            payload: vec![],
            redelivered: false,
            app_id: None,
            reply_to: None,
            correlation_id: None,
            headers: None,
        },
        0,
    )
}

#[test]
fn failing_first_parameter_never_invokes_the_second_extractor() {
    let mut req = request();
    let r: Result<(FailingExtractor, PanickingExtractor), HandlerError> = extract_pair(&mut req);
    // Reaching this point shows the spy was not invoked.
    assert_eq!(
        r.err().map(|e| e.describe()),
        Some(
            "Internal Error: The request's acknowledgment capability was already extracted"
                .to_string()
        )
    );
}

#[test]
fn successful_first_parameter_reaches_the_second() {
    let mut req = request();
    let r: Result<(UnitExtractor, FailingExtractor), HandlerError> = extract_pair(&mut req);
    assert!(r.is_err());
    let ok: Result<(UnitExtractor, UnitExtractor), HandlerError> = extract_pair(&mut req);
    assert!(ok.is_ok());
}
