//! AMQP requests: the unit of work, and its acknowledgment lifecycle.
//!
//! A request carries one delivery's payload and reply metadata, the shared
//! application state, a request id, and its acknowledgment flags. The one
//! commitment the engine makes to the broker — acknowledge, or negatively
//! acknowledge with requeue — is made at most once per request, on every
//! path: normal completion, extraction failure, handler panic, and manual
//! acknowledgment through the extracted [`Acker`].

use vstd::prelude::*;

use crate::amqp::Arguments;
use crate::amqp::clone_string;
use crate::error::HandlerError;
use crate::error::ServerError;
use crate::extract::FromRef;
use crate::extract::ReqId;
use crate::extract::req_id_from_delivery;
use crate::response::ReplyPlan;
use crate::response::decide_reply;
use crate::response::reply_plan_ok;

verus! {

/// One inbound unit of work taken off a broker queue: the payload bytes and
/// the envelope metadata that the engine reads.
#[derive(Debug, PartialEq, Eq)]
pub struct Delivery {
    /// The opaque byte payload.
    pub payload: Vec<u8>,
    /// Whether the broker redelivered this message.
    pub redelivered: bool,
    /// The `app_id` property: which app sent the message (diagnostic only).
    pub app_id: Option<String>,
    /// The `reply_to` property: where the caller expects the reply.
    pub reply_to: Option<String>,
    /// The `correlation_id` property: the caller's opaque correlation token.
    pub correlation_id: Option<String>,
    /// The message headers, when the message carried any.
    pub headers: Option<Arguments>,
}

/// An AMQP request.
#[derive(Debug, PartialEq, Eq)]
pub struct Request<S> {
    /// The app state. This is added to the app at construction and given to
    /// each request.
    pub state: S,
    /// Request ID. This is a unique ID for every request. Either a newly
    /// created identifier or whatever is found in the `req_id` header of the
    /// incoming AMQP message.
    pub req_id: ReqId,
    /// Has this message been (n)ack'ed?
    pub acked: bool,
    /// Has the single-use acknowledgment capability been extracted?
    pub acker_extracted: bool,
    /// The message delivery.
    pub delivery: Delivery,
}

impl<S> Request<S> {
    /// Constructs a new request from a [`Delivery`] and the shared state.
    /// The request id is the `req_id` header when the message carries one,
    /// and freshly generated otherwise.
    pub fn new(delivery: Delivery, state: S) -> (r: Self)
        ensures
            r.state == state,
            r.delivery == delivery,
            !r.acked,
            !r.acker_extracted,
            req_id_from_delivery(delivery, r.req_id),
    {
        let req_id = ReqId::from_delivery(&delivery);
        Request { state, req_id, acked: false, acker_extracted: false, delivery }
    }

    /// Returns a reference to the request ID of this request.
    pub fn req_id(&self) -> (r: &ReqId)
        ensures
            *r == self.req_id,
    {
        &self.req_id
    }

    /// Returns a reference to the delivery of this request.
    pub fn delivery(&self) -> (r: &Delivery)
        ensures
            *r == self.delivery,
    {
        &self.delivery
    }

    /// Returns the app state for the given type.
    pub fn state<T: FromRef<S>>(&self) -> T {
        T::from_ref(&self.state)
    }

    /// Returns the `app_id` AMQP property of the request.
    pub fn app_id(&self) -> (r: Option<&str>)
        ensures
            (match self.delivery.app_id {
                Some(a) => r matches Some(s) && s@ == a@,
                None => r is None,
            }),
    {
        match &self.delivery.app_id {
            Some(a) => Some(a.as_str()),
            None => None,
        }
    }

    /// Acks the request, recording that the broker has been told it was
    /// received and processed successfully. Acknowledging twice is a guarded
    /// logic error: this transition exists only out of the unacknowledged
    /// state.
    pub fn ack(&mut self)
        requires
            !old(self).acked,
        ensures
            *final(self) == (Request { acked: true, ..*old(self) }),
    {
        self.acked = true;
    }

    /// Takes the single-use acknowledgment capability out of the request.
    /// From then on the engine will not acknowledge the request itself: the
    /// handler has become responsible. Taking the capability twice fails.
    pub fn take_acker(&mut self) -> (r: Result<Acker, HandlerError>)
        ensures
            old(self).acker_extracted ==> {
                &&& r == Err::<Acker, HandlerError>(
                    HandlerError::Internal(ServerError::AckerAlreadyExtracted),
                )
                &&& *final(self) == *old(self)
            },
            !old(self).acker_extracted ==> {
                &&& r is Ok
                &&& *final(self) == (Request { acked: true, acker_extracted: true, ..*old(self) })
            },
    {
        if self.acker_extracted {
            Err(HandlerError::Internal(ServerError::AckerAlreadyExtracted))
        } else {
            self.acked = true;
            self.acker_extracted = true;
            Ok(Acker { reserved: () })
        }
    }

    /// Finishes the handling of the request once the response bytes exist:
    /// decides the reply as [`decide_reply`] does from the request's own
    /// reply metadata, and decides whether the engine must acknowledge the
    /// delivery — it must exactly when nothing has committed the request
    /// yet, regardless of how the reply publication goes.
    pub fn finish(&mut self, should_reply: bool, response: Vec<u8>) -> (r: (ReplyPlan, bool))
        ensures
            reply_plan_ok(
                should_reply,
                old(self).delivery.reply_to,
                old(self).delivery.correlation_id,
                response,
                r.0,
            ),
            r.1 == !old(self).acked,
            *final(self) == (Request { acked: true, ..*old(self) }),
    {
        let reply_to: Option<String> = match &self.delivery.reply_to {
            Some(s) => Some(clone_string(s)),
            None => None,
        };
        let correlation_id: Option<String> = match &self.delivery.correlation_id {
            Some(s) => Some(clone_string(s)),
            None => None,
        };
        let plan = decide_reply(should_reply, reply_to, correlation_id, response);
        let do_ack = !self.acked;
        self.acked = true;
        (plan, do_ack)
    }

    /// Destroys the request at the end of its handling scope, on every exit
    /// path including an abnormal one. When the request was never committed
    /// — the sub-task died before acknowledging — the engine must issue a
    /// best-effort negative acknowledgment with requeue, so the message is
    /// redelivered rather than silently lost; the result says whether it
    /// must.
    pub fn abandon(self) -> (nack_requeue: bool)
        ensures
            nack_requeue == !self.acked,
    {
        !self.acked
    }
}

/// An extractor that allows you manual control of acknowledgment and
/// rejection of messages.
///
/// Note that when you extract an `Acker`, the engine _will not_ acknowledge
/// the message for you, and will not reject the message if your handler
/// panics. When you extract this, you are responsible for acknowledging or
/// rejecting yourself. The capability is consumed by either, so the
/// commitment it makes is made at most once.
#[must_use]
#[derive(Debug, PartialEq, Eq)]
pub struct Acker {
    /// Only the engine constructs ackers, from a request that has not handed
    /// one out yet.
    reserved: (),
}

/// The one commitment made to the broker for a delivery.
#[derive(Debug, Clone, Copy, PartialEq, Eq, Structural)]
pub enum CommitKind {
    /// Acknowledge: the message was received and processed.
    Ack,
    /// Reject: refuse the message, requeueing it when asked to.
    Reject {
        /// Whether the broker shall requeue the message.
        requeue: bool,
    },
}

impl Acker {
    /// Acks the message that was received for this acker. Consumes the
    /// capability: the commitment cannot be repeated.
    pub fn ack(self) -> (c: CommitKind)
        ensures
            c is Ack,
    {
        CommitKind::Ack
    }

    /// Rejects the message that was received for this acker. Consumes the
    /// capability: the commitment cannot be repeated.
    pub fn reject(self, requeue: bool) -> (c: CommitKind)
        ensures
            c == (CommitKind::Reject { requeue }),
    {
        CommitKind::Reject { requeue }
    }
}

/// The commitment state of one request, abstracted from the flags above:
/// fresh (unacknowledged, capability not handed out), transferred (the
/// handler holds the capability), or committed (an acknowledgment or
/// rejection has been issued to the broker).
#[derive(Debug, Clone, Copy, PartialEq, Eq, Structural)]
pub enum CommitState {
    /// Nothing has committed the request and the engine is responsible.
    Fresh,
    /// The extracted [`Acker`] is responsible; nothing has committed yet.
    Transferred,
    /// The one commitment has been made.
    Committed,
}

/// The operations a request's handling can perform on its commitment state.
/// Each corresponds to one of the executable transitions: `FinishAck` to the
/// guarded acknowledgment of [`Request::finish`], `ExtractAcker` to a
/// successful [`Request::take_acker`], `AckerCommit` to [`Acker::ack`] or
/// [`Acker::reject`] (possible once, since they consume the capability), and
/// `DropNack` to the negative acknowledgment that [`Request::abandon`] asks
/// for when the request is destroyed uncommitted.
#[derive(Debug, Clone, Copy, PartialEq, Eq, Structural)]
pub enum LifecycleOp {
    /// The engine's own end-of-handling acknowledgment, guarded by the ack
    /// flag.
    FinishAck,
    /// The handler takes the single-use capability.
    ExtractAcker,
    /// The holder of the capability commits (ack or reject).
    AckerCommit,
    /// The request is destroyed; uncommitted requests are negatively
    /// acknowledged with requeue.
    DropNack,
}

/// When an operation can happen: the capability can only be taken from a
/// fresh request, and only its holder can use it. The guarded operations are
/// always possible — their guards make them skip instead of committing.
pub open spec fn lifecycle_enabled(pre: CommitState, op: LifecycleOp) -> bool {
    match op {
        LifecycleOp::ExtractAcker => pre is Fresh,
        LifecycleOp::AckerCommit => pre is Transferred,
        LifecycleOp::FinishAck => true,
        LifecycleOp::DropNack => true,
    }
}

/// Whether an operation commits the request to the broker in a given state.
pub open spec fn op_commits(pre: CommitState, op: LifecycleOp) -> bool {
    match op {
        LifecycleOp::FinishAck => pre is Fresh,
        LifecycleOp::DropNack => pre is Fresh,
        LifecycleOp::AckerCommit => pre is Transferred,
        LifecycleOp::ExtractAcker => false,
    }
}

/// The commitment state after an operation.
pub open spec fn lifecycle_next(pre: CommitState, op: LifecycleOp) -> CommitState {
    match op {
        LifecycleOp::FinishAck => if pre is Fresh {
            CommitState::Committed
        } else {
            pre
        },
        LifecycleOp::DropNack => if pre is Fresh {
            CommitState::Committed
        } else {
            pre
        },
        LifecycleOp::ExtractAcker => CommitState::Transferred,
        LifecycleOp::AckerCommit => CommitState::Committed,
    }
}

/// Every operation of the sequence is enabled in the state it meets.
pub open spec fn lifecycle_trace_enabled(pre: CommitState, ops: Seq<LifecycleOp>) -> bool
    decreases ops.len(),
{
    ops.len() == 0 || {
        &&& lifecycle_enabled(pre, ops[0])
        &&& lifecycle_trace_enabled(lifecycle_next(pre, ops[0]), ops.drop_first())
    }
}

/// How many of the operations commit the request to the broker.
pub open spec fn count_commits(pre: CommitState, ops: Seq<LifecycleOp>) -> int
    decreases ops.len(),
{
    if ops.len() == 0 {
        0
    } else {
        (if op_commits(pre, ops[0]) { 1int } else { 0int }) + count_commits(
            lifecycle_next(pre, ops[0]),
            ops.drop_first(),
        )
    }
}

/// The commitment state after a whole sequence of operations.
pub open spec fn run_lifecycle(pre: CommitState, ops: Seq<LifecycleOp>) -> CommitState
    decreases ops.len(),
{
    if ops.len() == 0 {
        pre
    } else {
        run_lifecycle(lifecycle_next(pre, ops[0]), ops.drop_first())
    }
}

/// A committed request never moves again: the capability cannot be taken
/// from it, its holder is gone, and the guarded operations skip.
pub proof fn lemma_committed_stays(ops: Seq<LifecycleOp>)
    requires
        lifecycle_trace_enabled(CommitState::Committed, ops),
    ensures
        run_lifecycle(CommitState::Committed, ops) is Committed,
        count_commits(CommitState::Committed, ops) == 0,
    decreases ops.len(),
{
    if ops.len() > 0 {
        lemma_committed_stays(ops.drop_first());
    }
}

/// Nothing is lost on abandonment: when the handler does not take the
/// acknowledgment capability over, the request's handling commits exactly
/// once, whichever guarded commit comes first — the end-of-handling
/// acknowledgment, or the negative acknowledgment with requeue when the
/// request is destroyed uncommitted.
pub proof fn lemma_engine_commits_exactly_once(ops: Seq<LifecycleOp>)
    requires
        lifecycle_trace_enabled(CommitState::Fresh, ops),
        ops.len() > 0,
        forall|i: int| 0 <= i < ops.len() ==> ops[i] != LifecycleOp::ExtractAcker,
    ensures
        count_commits(CommitState::Fresh, ops) == 1,
{
    // From a fresh request, the first operation of such a trace can only be
    // a guarded commit, and it fires; everything after it skips.
    assert(ops[0] != LifecycleOp::ExtractAcker);
    lemma_committed_stays(ops.drop_first());
}

/// At-most-once acknowledgment: whatever its handling does — normal
/// completion, extraction failure, handler panic and abandonment, manual
/// acknowledgment through the extracted capability — a request starting
/// fresh commits to the broker at most once, and a committed request never
/// commits again.
pub proof fn lemma_at_most_once_commit(pre: CommitState, ops: Seq<LifecycleOp>)
    requires
        lifecycle_trace_enabled(pre, ops),
    ensures
        count_commits(pre, ops) <= 1,
        pre is Committed ==> count_commits(pre, ops) == 0,
    decreases ops.len(),
{
    if ops.len() > 0 {
        lemma_at_most_once_commit(lifecycle_next(pre, ops[0]), ops.drop_first());
    }
}

} // verus!
