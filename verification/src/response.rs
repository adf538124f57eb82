//! Responses and the decision whether and where to publish a reply.

use vstd::prelude::*;

verus! {

/// A trait for types that may produce responses.
///
/// This really just means they can be converted into a byte payload.
pub trait Respond {
    /// Creates the bytes payload of the response.
    fn respond(self) -> Vec<u8>;
}

/// A raw byte payload responds as itself.
impl Respond for Vec<u8> {
    fn respond(self) -> (r: Vec<u8>)
        ensures
            r == self,
    {
        self
    }
}

/// Handlers that return nothing produce an empty payload.
impl Respond for () {
    fn respond(self) -> (r: Vec<u8>)
        ensures
            r@ =~= Seq::<u8>::empty(),
    {
        Vec::new()
    }
}

/// One reply publication: what must be sent, and where.
#[derive(Debug, PartialEq, Eq)]
pub struct PublishPlan {
    /// The exchange to publish on: always the default (unnamed) exchange.
    pub exchange: String,
    /// The routing key: the caller's reply destination.
    pub routing_key: String,
    /// The bytes of the reply.
    pub payload: Vec<u8>,
    /// The correlation id copied from the request, when it carried one.
    pub correlation_id: Option<String>,
    /// The content type marking the payload as opaque binary.
    pub content_type: String,
}

/// The outcome of the reply decision: an optional publication, and which
/// warnings must be emitted.
#[derive(Debug, PartialEq, Eq)]
pub struct ReplyPlan {
    /// The publication to perform, if any.
    pub publish: Option<PublishPlan>,
    /// A reply is published without a correlation id: the caller may not be
    /// able to match it to their request.
    pub warn_missing_correlation_id: bool,
    /// A reply is published empty: the caller likely expected content.
    pub warn_empty_response: bool,
    /// The handler produced content but the request named no reply
    /// destination, so nobody can receive it.
    pub warn_unroutable_response: bool,
}

/// How a reply plan realises the reply decision for a handler's response:
/// a reply is published exactly when the handler should reply and the
/// request named a reply destination; it goes to that destination on the
/// default exchange, marked as opaque binary, with the request's correlation
/// id copied when present. A missing correlation id, an empty reply, and
/// undeliverable content each raise exactly one warning.
pub open spec fn reply_plan_ok(
    should_reply: bool,
    reply_to: Option<String>,
    correlation_id: Option<String>,
    response: Vec<u8>,
    r: ReplyPlan,
) -> bool {
    &&& (r.publish is Some <==> should_reply && reply_to is Some)
    &&& (match (should_reply, reply_to) {
        (true, Some(rt)) => r.publish matches Some(p) && {
            &&& p.exchange@ == ""@
            &&& p.routing_key == rt
            &&& p.payload == response
            &&& p.correlation_id == correlation_id
            &&& p.content_type@ == "application/octet-stream"@
        },
        _ => r.publish is None,
    })
    &&& r.warn_missing_correlation_id == (should_reply && reply_to is Some && correlation_id is None)
    &&& r.warn_empty_response == (should_reply && reply_to is Some && response@.len() == 0)
    &&& r.warn_unroutable_response == (should_reply && reply_to is None && response@.len() > 0)
}

/// Decides whether and where a handler's response is published.
///
/// A reply is published exactly when the handler should reply and the request
/// named a reply destination; it goes to that destination on the default
/// exchange, marked as opaque binary, with the request's correlation id
/// copied when present. A missing correlation id, an empty reply, and
/// undeliverable content each raise exactly one warning. Publish failures are
/// the shell's to log; they are never escalated and never retried.
pub fn decide_reply(
    should_reply: bool,
    reply_to: Option<String>,
    correlation_id: Option<String>,
    response: Vec<u8>,
) -> (r: ReplyPlan)
    ensures
        reply_plan_ok(should_reply, reply_to, correlation_id, response, r),
{
    if should_reply {
        match reply_to {
            Some(rt) => {
                let missing_correlation = correlation_id.is_none();
                let empty = response.len() == 0;
                ReplyPlan {
                    publish: Some(PublishPlan {
                        exchange: "".to_owned(),
                        routing_key: rt,
                        payload: response,
                        correlation_id,
                        content_type: "application/octet-stream".to_owned(),
                    }),
                    warn_missing_correlation_id: missing_correlation,
                    warn_empty_response: empty,
                    warn_unroutable_response: false,
                }
            }
            None => ReplyPlan {
                publish: None,
                warn_missing_correlation_id: false,
                warn_empty_response: false,
                warn_unroutable_response: response.len() > 0,
            },
        }
    } else {
        ReplyPlan {
            publish: None,
            warn_missing_correlation_id: false,
            warn_empty_response: false,
            warn_unroutable_response: false,
        }
    }
}

} // verus!
