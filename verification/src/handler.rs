//! Handlers are user functions whose arguments are extracted from the
//! request, and the fail-fast dispatch over their parameters.

use vstd::prelude::*;

use crate::error::HandlerError;
use crate::request::Request;
use crate::response::ReplyPlan;
use crate::response::Respond;

verus! {

/// A trait for functions that can be used as handlers for incoming AMQP
/// messages: the handler consumes itself and produces its response from the
/// request, possibly mutating it along the way.
pub trait Handler<Res: Respond, S>: Sized {
    /// Calls the handler with the given request.
    fn call(self, req: &mut Request<S>) -> Res;
}

/// What the dispatch over a handler's parameters decided: how many
/// extractors were attempted, and the failure that stopped it, if one did.
#[derive(Debug, PartialEq, Eq)]
pub struct DispatchPlan {
    /// How many extractors ran, from the left.
    pub attempted: usize,
    /// The first extractor's failure, when one failed: it is converted into
    /// the declared response type and published in the handler's stead; the
    /// handler body is not invoked.
    pub failure: Option<HandlerError>,
}

/// The position of the first failed extraction, if any.
pub open spec fn first_failure_index(s: Seq<Option<HandlerError>>) -> Option<int>
    decreases s.len(),
{
    if s.len() == 0 {
        None
    } else if s[0] is Some {
        Some(0int)
    } else {
        match first_failure_index(s.drop_first()) {
            Some(i) => Some(i + 1),
            None => None::<int>,
        }
    }
}

/// How a dispatch decision realises the outcomes of a handler's parameters:
/// extraction goes strictly left to right and stops at the first failure,
/// which becomes the decision's failure; with no failure, every parameter is
/// extracted and the handler body runs.
pub open spec fn dispatch_ok(s: Seq<Option<HandlerError>>, r: DispatchPlan) -> bool {
    match first_failure_index(s) {
        Some(i) => r.attempted == i + 1 && r.failure == s[i],
        None => r.attempted == s.len() && r.failure is None,
    }
}

/// Dispatches over a handler's parameters, given the outcome each extractor
/// has for this request (`None` for a successful extraction, `Some` for a
/// failure): parameters are attempted strictly left to right; the first
/// failure stops the dispatch, and no later extractor is attempted.
pub fn dispatch(outcomes: Vec<Option<HandlerError>>) -> (r: DispatchPlan)
    ensures
        dispatch_ok(outcomes@, r),
{
    let mut v = outcomes;
    let n: usize = v.len();
    let mut i: usize = 0;
    while i < n
        invariant
            v@ == outcomes@,
            n == v@.len(),
            0 <= i <= n,
            forall|j: int| 0 <= j < i ==> v@[j] is None,
        decreases n - i,
    {
        if v[i].is_some() {
            proof {
                lemma_first_failure_at(v@, i as int);
            }
            let failure = v.remove(i);
            return DispatchPlan { attempted: i + 1, failure };
        }
        i = i + 1;
    }
    proof {
        lemma_first_failure_none(v@);
    }
    DispatchPlan { attempted: n, failure: None }
}

/// When everything before `n` succeeded and `n` failed, `n` is the first
/// failure.
proof fn lemma_first_failure_at(s: Seq<Option<HandlerError>>, n: int)
    requires
        0 <= n < s.len(),
        forall|j: int| 0 <= j < n ==> s[j] is None,
        s[n] is Some,
    ensures
        first_failure_index(s) == Some(n),
    decreases n,
{
    if n > 0 {
        lemma_first_failure_at(s.drop_first(), n - 1);
    }
}

/// When every extraction succeeded, there is no first failure.
proof fn lemma_first_failure_none(s: Seq<Option<HandlerError>>)
    requires
        forall|j: int| 0 <= j < s.len() ==> s[j] is None,
    ensures
        first_failure_index(s) is None,
    decreases s.len(),
{
    if s.len() > 0 {
        lemma_first_failure_none(s.drop_first());
    }
}

/// A failed extraction has a first failed position, no later than itself.
proof fn lemma_first_failure_le(s: Seq<Option<HandlerError>>, i: int)
    requires
        0 <= i < s.len(),
        s[i] is Some,
    ensures
        first_failure_index(s) matches Some(f) && 0 <= f <= i && s[f] is Some,
    decreases i,
{
    if s[0] is None {
        lemma_first_failure_le(s.drop_first(), i - 1);
    }
}

/// Fail-fast extraction order: when any parameter's extraction fails, every
/// extractor past the first failure lies beyond what the dispatch attempts —
/// for a handler with parameters (A, B) where A fails, B's extractor is
/// never invoked — and the dispatch carries a failure, so the handler body
/// is not invoked either.
pub proof fn lemma_fail_fast(s: Seq<Option<HandlerError>>, r: DispatchPlan, i: int, j: int)
    requires
        dispatch_ok(s, r),
        0 <= i < j < s.len(),
        s[i] is Some,
    ensures
        r.attempted <= j,
        r.failure is Some,
{
    lemma_first_failure_le(s, i);
}

/// Handles the given request with the given handler: invokes it, turns its
/// return value into response bytes, decides the reply from the request's
/// own reply metadata, and decides whether the engine must acknowledge —
/// which it must exactly when the handler did not take that responsibility
/// over. Whatever the handler did, a handler that should not reply never
/// publishes, and the request leaves this function committed.
pub fn handle_request<S, H: Handler<Res, S>, Res: Respond>(
    req: &mut Request<S>,
    handler: H,
    should_reply: bool,
) -> (r: (ReplyPlan, bool))
    ensures
        final(req).acked,
        !should_reply ==> {
            &&& r.0.publish is None
            &&& !r.0.warn_missing_correlation_id
            &&& !r.0.warn_empty_response
            &&& !r.0.warn_unroutable_response
        },
        r.0.publish is Some ==> should_reply,
{
    let response = handler.call(req);
    let bytes = response.respond();
    req.finish(should_reply, bytes)
}

} // verus!
