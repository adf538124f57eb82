//! A ready-made response shape for echo-style services, mirroring the
//! message layout that code generation produces for such a service: a
//! success carrying a value, or one of the two error replies that
//! extraction failures convert into.

use vstd::prelude::*;

use crate::error::FromError;
use crate::error::HandlerError;
use crate::error::request_error_text;
use crate::error::server_error_text;

verus! {

/// The successful reply: the echoed value.
#[derive(Debug, PartialEq, Eq)]
pub struct Success {
    /// The echoed value.
    pub value: String,
}

/// The reply for a request the service could not understand.
#[derive(Debug, PartialEq, Eq)]
pub struct InvalidRequest {
    /// The rendered description of what was wrong with the request.
    pub error: String,
}

/// The reply for a failure inside the responding service.
#[derive(Debug, PartialEq, Eq)]
pub struct InternalError {
    /// The service in which the error originated.
    pub source: String,
    /// The rendered description of the error.
    pub error: String,
}

/// The alternatives an echo response can carry.
#[derive(Debug, PartialEq, Eq)]
pub enum EchoReply {
    /// The request was handled.
    Success(Success),
    /// The request was malformed.
    InvalidRequest(InvalidRequest),
    /// The service failed on its own account.
    InternalError(InternalError),
}

/// The response of an echo-style service.
#[derive(Debug, PartialEq, Eq)]
pub struct EchoResponse {
    /// The alternative this response carries; absent in an empty response.
    pub response: Option<EchoReply>,
}

impl EchoResponse {
    /// A successful response around the echoed value.
    pub fn success(value: String) -> (r: Self)
        ensures
            r == (EchoResponse { response: Some(EchoReply::Success(Success { value })) }),
    {
        EchoResponse { response: Some(EchoReply::Success(Success { value })) }
    }
}

/// How an extraction failure converts into an echo response: an invalid
/// request becomes the invalid-request reply carrying the rendered request
/// error, and an internal failure becomes the internal-error reply naming
/// this crate as its source.
pub open spec fn echo_error_response(error: HandlerError, r: EchoResponse) -> bool {
    match error {
        HandlerError::InvalidRequest(e) => r.response matches Some(
            EchoReply::InvalidRequest(iv),
        ) && iv.error@ == request_error_text(e),
        HandlerError::Internal(e) => r.response matches Some(EchoReply::InternalError(ie)) && {
            &&& ie.error@ == server_error_text(e)
            &&& ie.source@ == "kanin"@
        },
    }
}

impl FromError<HandlerError> for EchoResponse {
    /// Converts an extraction failure into the error reply, as
    /// [`echo_error_response`] describes.
    fn from_error(error: HandlerError) -> (r: Self)
        ensures
            echo_error_response(error, r),
    {
        match error {
            HandlerError::InvalidRequest(e) => EchoResponse {
                response: Some(EchoReply::InvalidRequest(InvalidRequest { error: e.describe() })),
            },
            HandlerError::Internal(e) => EchoResponse {
                response: Some(
                    EchoReply::InternalError(
                        InternalError { source: "kanin".to_owned(), error: e.describe() },
                    ),
                ),
            },
        }
    }
}

} // verus!
