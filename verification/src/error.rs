//! Error types of the framework.

use vstd::prelude::*;
use vstd::string::StringExecFns;

verus! {

/// The rendered description of an error that an underlying broker call
/// returned. The broker client's own error values never enter the verified
/// engine; the shell around it renders them to text at the boundary.
#[derive(Debug, Clone, PartialEq, Eq)]
pub struct BrokerError {
    /// The rendered description of the underlying error.
    pub message: String,
}

/// Errors that may be returned by the framework, especially when the app runs.
#[derive(Debug, Clone, PartialEq, Eq)]
pub enum Error {
    /// The app was started with no handlers registered.
    NoHandlers,
    /// The app exited due to a consumer from the AMQP broker cancelling.
    /// The routing key of the consumer is given.
    ConsumerCancelled(String),
    /// An error from an underlying broker client call.
    Lapin(BrokerError),
}

/// Errors that may be produced by handlers. Failing extractors provided by
/// the framework return this error.
#[derive(Debug, Clone, PartialEq, Eq)]
pub enum HandlerError {
    /// Errors due to invalid requests.
    InvalidRequest(RequestError),
    /// Errors internal to the service handling the request.
    Internal(ServerError),
}

/// All the ways a request might be invalid.
#[derive(Debug, Clone, PartialEq, Eq)]
pub enum RequestError {
    /// A message could not be decoded into the required type.
    /// Carries a description of the decoding failure.
    DecodeError(String),
}

/// Errors that are the handling service's own defect rather than the caller's.
#[derive(Debug, Clone, PartialEq, Eq)]
pub enum ServerError {
    /// The single-use acknowledgement capability of a request was extracted
    /// a second time.
    AckerAlreadyExtracted,
}

/// The rendered text of a request error.
pub open spec fn request_error_text(e: RequestError) -> Seq<char> {
    match e {
        RequestError::DecodeError(d) => "Message could not be decoded into the required type: "@
            + d@,
    }
}

/// The rendered text of a server error.
pub open spec fn server_error_text(e: ServerError) -> Seq<char> {
    match e {
        ServerError::AckerAlreadyExtracted =>
            "The request's acknowledgment capability was already extracted"@,
    }
}

/// The rendered text of a handler error.
pub open spec fn handler_error_text(e: HandlerError) -> Seq<char> {
    match e {
        HandlerError::InvalidRequest(inner) => "Invalid Request: "@ + request_error_text(inner),
        HandlerError::Internal(inner) => "Internal Error: "@ + server_error_text(inner),
    }
}

impl RequestError {
    /// Renders the error for logging and responses.
    pub fn describe(&self) -> (s: String)
        ensures
            s@ == request_error_text(*self),
    {
        match self {
            RequestError::DecodeError(d) => {
                let mut s = String::new();
                s.append("Message could not be decoded into the required type: ");
                s.append(d.as_str());
                s
            }
        }
    }
}

impl ServerError {
    /// Renders the error for logging and responses.
    pub fn describe(&self) -> (s: String)
        ensures
            s@ == server_error_text(*self),
    {
        match self {
            ServerError::AckerAlreadyExtracted => {
                let mut s = String::new();
                s.append("The request's acknowledgment capability was already extracted");
                s
            }
        }
    }
}

impl HandlerError {
    /// Renders the error for logging and responses.
    pub fn describe(&self) -> (s: String)
        ensures
            s@ == handler_error_text(*self),
    {
        match self {
            HandlerError::InvalidRequest(inner) => {
                let mut s = String::new();
                s.append("Invalid Request: ");
                let d = inner.describe();
                s.append(d.as_str());
                s
            }
            HandlerError::Internal(inner) => {
                let mut s = String::new();
                s.append("Internal Error: ");
                let d = inner.describe();
                s.append(d.as_str());
                s
            }
        }
    }
}

/// Types that may be constructed from errors.
///
/// The return type of a handler must implement `FromError<HandlerError>` so
/// that the framework knows how to turn an extraction failure into a response.
pub trait FromError<E> {
    /// Converts the error into a response.
    fn from_error(error: E) -> Self where Self: core::marker::Sized;
}

/// If a response can be constructed from an error, so can an optional
/// response, by wrapping it in `Some`.
impl<T: FromError<HandlerError>> FromError<HandlerError> for Option<T> {
    fn from_error(error: HandlerError) -> (r: Self)
        ensures
            r is Some,
    {
        Some(T::from_error(error))
    }
}

/// Handlers that do not produce a response can still absorb extraction
/// failures; the failure is reported through the framework's own logging
/// rather than through a reply.
impl FromError<HandlerError> for () {
    fn from_error(error: HandlerError) -> Self {
        ()
    }
}

} // verus!
