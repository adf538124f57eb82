//! Interface for types that can extract themselves from requests, and the
//! built-in extractors.
//!
//! Note that extractions might mutate the request in certain ways: the
//! [`Acker`] extractor transfers the acknowledgment responsibility to the
//! handler.

use vstd::prelude::*;

use crate::amqp::HeaderValue;
use crate::amqp::clone_string;
use crate::amqp::header_value_display;
use crate::error::HandlerError;
use crate::error::RequestError;
use crate::error::ServerError;
use crate::request::Acker;
use crate::request::Delivery;
use crate::request::Request;

verus! {

/// A trait for types that can be extracted from [requests](`Request`).
pub trait Extract<S>: Sized {
    /// The error to return in case extraction fails.
    type Error;

    /// Extract the type from the request.
    fn extract(req: &mut Request<S>) -> Result<Self, Self::Error>;
}

/// Borrowed projection out of the shared application state: any type that
/// can be produced from a reference to the state can be extracted via
/// [`State`]. Whether a projection exists is settled when the app is built,
/// never per request.
pub trait FromRef<S>: Sized {
    /// Produces the value from a reference to the state.
    fn from_ref(state: &S) -> Self;
}

/// Decoding of a payload into a typed message. The encoding itself is the
/// codec's business, outside this crate; a failure is reported as its
/// rendered description.
pub trait DecodePayload: Sized {
    /// Decodes the payload bytes, or describes why they are malformed.
    fn decode_payload(payload: &[u8]) -> Result<Self, String>;
}

/// Relies on `uuid::Uuid::new_v4` and `Uuid`'s `to_string`: a freshly drawn
/// random version-4 UUID, rendered in the hyphenated form. The value is
/// random, so no two calls are related; what holds of every outcome is the
/// rendering's shape: 36 ASCII characters.
#[verifier::external_body]
fn fresh_request_id() -> (r: String)
    ensures
        r@.len() == 36,
        r.is_ascii(),
{
    uuid::Uuid::new_v4().to_string()
}

/// A freshly generated request id: a 36-character identifier carried as a
/// long string.
pub open spec fn generated_req_id(id: ReqId) -> bool {
    id.0 matches HeaderValue::LongString(s) && s@.len() == 36
}

/// How a request id arises from a delivery: the value of the `req_id`
/// header when the message carries one, and a freshly generated id
/// otherwise.
pub open spec fn req_id_from_delivery(d: Delivery, id: ReqId) -> bool {
    match d.headers {
        Some(h) => match h.spec_get("req_id"@) {
            Some(v) => id.0 == v,
            None => generated_req_id(id),
        },
        None => generated_req_id(id),
    }
}

/// Request IDs allow concurrent logs to be associated with a unique request.
/// It can also enable requests to be traced between different services by
/// propagating the request IDs when calling other services. This type
/// implements [`Extract`], so it can be used in handlers.
#[derive(Debug, PartialEq, Eq)]
pub struct ReqId(pub HeaderValue);

impl ReqId {
    /// Create a new [`ReqId`] as a random UUID.
    pub fn new() -> (r: Self)
        ensures
            generated_req_id(r),
    {
        ReqId(HeaderValue::LongString(fresh_request_id()))
    }

    /// Create a [`ReqId`] from a [`Delivery`]. If no `req_id` is found in
    /// the headers of the message then a new one is created.
    pub(crate) fn from_delivery(delivery: &Delivery) -> (r: Self)
        ensures
            req_id_from_delivery(*delivery, r),
    {
        match &delivery.headers {
            Some(h) => {
                let key: String = "req_id".to_owned();
                match h.get(&key) {
                    Some(v) => ReqId(v.duplicate()),
                    None => Self::new(),
                }
            }
            None => Self::new(),
        }
    }

    /// Returns an id equal to this one.
    pub fn duplicate(&self) -> (r: Self)
        ensures
            r == *self,
    {
        ReqId(self.0.duplicate())
    }

    /// Renders the id for logging and tracing, as
    /// [`header_value_display`] describes.
    pub fn display_string(&self) -> (s: String)
        ensures
            s@ == header_value_display(self.0),
    {
        self.0.display_string()
    }
}

impl Default for ReqId {
    /// A freshly generated id.
    fn default() -> (r: Self)
        ensures
            generated_req_id(r),
    {
        Self::new()
    }
}

/// Extract implementation for request ids: infallible, hands out the
/// request's id and leaves the request unchanged.
impl<S> Extract<S> for ReqId {
    type Error = HandlerError;

    fn extract(req: &mut Request<S>) -> (r: Result<Self, HandlerError>)
        ensures
            *final(req) == *old(req),
            r == Ok::<ReqId, HandlerError>(old(req).req_id),
    {
        Ok(req.req_id().duplicate())
    }
}

/// App ID extracted from the properties of the incoming request. Notice that
/// this is already logged as part of handling the request.
#[derive(Debug, PartialEq, Eq)]
pub struct AppId(pub Option<String>);

/// Extract implementation for app ids: infallible, reads the `app_id`
/// property and leaves the request unchanged.
impl<S> Extract<S> for AppId {
    type Error = HandlerError;

    fn extract(req: &mut Request<S>) -> (r: Result<Self, HandlerError>)
        ensures
            *final(req) == *old(req),
            r == Ok::<AppId, HandlerError>(AppId(old(req).delivery.app_id)),
    {
        let app_id: Option<String> = match &req.delivery.app_id {
            Some(a) => Some(clone_string(a)),
            None => None,
        };
        Ok(AppId(app_id))
    }
}

/// `State` is an extractor helper struct that allows you to extract app
/// state from the state type the app was built around.
///
/// Any type that implements [`FromRef<S>`] where `S` is the app state can be
/// extracted via this type.
#[derive(Debug, PartialEq, Eq)]
pub struct State<T>(pub T);

/// Extract implementation for app state: infallible, projects out of the
/// shared state and leaves the request unchanged.
impl<S, T: FromRef<S>> Extract<S> for State<T> {
    type Error = HandlerError;

    fn extract(req: &mut Request<S>) -> (r: Result<Self, HandlerError>)
        ensures
            *final(req) == *old(req),
            r is Ok,
    {
        Ok(State(T::from_ref(&req.state)))
    }
}

/// A simple wrapper that allows you to extract a typed message decoded from
/// the payload.
#[derive(Debug, PartialEq, Eq)]
pub struct Msg<T>(pub T);

/// Extract implementation for typed messages: decodes the payload, leaves
/// the request unchanged, and reports malformed bytes as an invalid-request
/// decode error carrying the codec's description.
impl<S, T: DecodePayload> Extract<S> for Msg<T> {
    type Error = HandlerError;

    fn extract(req: &mut Request<S>) -> (r: Result<Self, HandlerError>)
        ensures
            *final(req) == *old(req),
            r matches Err(e) ==> e matches HandlerError::InvalidRequest(
                RequestError::DecodeError(_),
            ),
    {
        match T::decode_payload(req.delivery.payload.as_slice()) {
            Ok(v) => Ok(Msg(v)),
            Err(description) => Err(
                HandlerError::InvalidRequest(RequestError::DecodeError(description)),
            ),
        }
    }
}

/// Extract implementation for the acknowledgment capability: takes the
/// single-use [`Acker`] out of the request, making the handler responsible
/// for the commitment; fails when it was already taken.
impl<S> Extract<S> for Acker {
    type Error = HandlerError;

    fn extract(req: &mut Request<S>) -> (r: Result<Self, HandlerError>)
        ensures
            !old(req).acker_extracted ==> {
                &&& r is Ok
                &&& *final(req) == (Request {
                    acked: true,
                    acker_extracted: true,
                    ..*old(req)
                })
            },
            old(req).acker_extracted ==> {
                &&& r == Err::<Acker, HandlerError>(
                    HandlerError::Internal(ServerError::AckerAlreadyExtracted),
                )
                &&& *final(req) == *old(req)
            },
    {
        req.take_acker()
    }
}

/// Extracting options simply discards the error and returns `None` in that
/// case: the handler opts into handling absence itself.
impl<S, T: Extract<S, Error = HandlerError>> Extract<S> for Option<T> {
    type Error = HandlerError;

    fn extract(req: &mut Request<S>) -> (r: Result<Self, HandlerError>)
        ensures
            r is Ok,
    {
        match T::extract(req) {
            Ok(v) => Ok(Some(v)),
            Err(_) => Ok(None),
        }
    }
}

/// Extracting a result returns the extraction error if it fails, allowing
/// the handler to decide what to do with the error.
impl<S, T: Extract<S, Error = HandlerError>> Extract<S> for Result<T, HandlerError> {
    type Error = HandlerError;

    fn extract(req: &mut Request<S>) -> (r: Result<Self, HandlerError>)
        ensures
            r is Ok,
    {
        Ok(T::extract(req))
    }
}

/// Extracts two parameters strictly left to right: when the first fails,
/// its error is returned at once and the second extractor is never invoked,
/// so the request keeps only the first attempt's effect.
pub fn extract_pair<S, A, B>(req: &mut Request<S>) -> (r: Result<(A, B), HandlerError>) where
    A: Extract<S, Error = HandlerError>,
    B: Extract<S, Error = HandlerError>,
 {
    let a: A = match A::extract(req) {
        Ok(a) => a,
        Err(e) => {
            return Err(e);
        }
    };
    let b: B = match B::extract(req) {
        Ok(b) => b,
        Err(e) => {
            return Err(e);
        }
    };
    Ok((a, b))
}

} // verus!
