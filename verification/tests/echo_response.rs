//! The ready-made echo response shape and its error conversions.

use kanin::echo::{EchoReply, EchoResponse};
use kanin::error::{FromError, HandlerError, RequestError, ServerError};

#[test]
fn success_wraps_the_value() {
    let r = EchoResponse::success("hello".to_string());
    match r.response {
        Some(EchoReply::Success(s)) => assert_eq!(s.value, "hello"),
        other => panic!("expected a success reply, got {:?}", other),
    }
}

#[test]
fn an_invalid_request_converts_into_the_invalid_request_reply() {
    let error = HandlerError::InvalidRequest(RequestError::DecodeError("boom".to_string()));
    let r = EchoResponse::from_error(error);
    match r.response {
        Some(EchoReply::InvalidRequest(iv)) => assert_eq!(
            iv.error,
            "Message could not be decoded into the required type: boom"
        ),
        other => panic!("expected an invalid-request reply, got {:?}", other),
    }
}

#[test]
fn an_internal_failure_converts_into_the_internal_error_reply() {
    let error = HandlerError::Internal(ServerError::AckerAlreadyExtracted);
    let r = EchoResponse::from_error(error);
    match r.response {
        Some(EchoReply::InternalError(ie)) => {
            assert_eq!(ie.source, "kanin");
            assert_eq!(
                ie.error,
                "The request's acknowledgment capability was already extracted"
            );
        }
        other => panic!("expected an internal-error reply, got {:?}", other),
    }
}

#[test]
fn handler_errors_render_with_their_category() {
    let error = HandlerError::InvalidRequest(RequestError::DecodeError("boom".to_string()));
    assert_eq!(
        error.describe(),
        "Invalid Request: Message could not be decoded into the required type: boom"
    );
    let internal = HandlerError::Internal(ServerError::AckerAlreadyExtracted);
    assert_eq!(
        internal.describe(),
        "Internal Error: The request's acknowledgment capability was already extracted"
    );
}

#[test]
fn optional_responses_absorb_errors_by_wrapping() {
    let error = HandlerError::Internal(ServerError::AckerAlreadyExtracted);
    let r: Option<EchoResponse> = Option::<EchoResponse>::from_error(error);
    assert!(r.is_some());
    let unit: () = <()>::from_error(HandlerError::Internal(ServerError::AckerAlreadyExtracted));
    let _ = unit;
}
