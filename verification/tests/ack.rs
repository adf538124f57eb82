//! The acknowledgment lifecycle: against a fake broker client that counts
//! commitments, every handling path — success, extraction failure, handler
//! panic, and manual acknowledgment — commits exactly once.

use kanin::error::{HandlerError, ServerError};
use kanin::request::{CommitKind, Delivery, Request};

/// A fake broker client: counts how often a request was committed.
struct FakeBroker {
    acks: u32,
    nacks: u32,
    rejects: u32,
}

impl FakeBroker {
    fn new() -> Self {
        FakeBroker { acks: 0, nacks: 0, rejects: 0 }
    }

    fn commits(&self) -> u32 {
        self.acks + self.nacks + self.rejects
    }
}

fn delivery(payload: Vec<u8>) -> Delivery {
    Delivery {
        payload,
        redelivered: false,
        app_id: None,
        reply_to: Some("replies".to_string()),
        correlation_id: Some("abc".to_string()),
        headers: None,
    }
}

#[test]
fn successful_handling_commits_exactly_once() {
    let mut broker = FakeBroker::new();
    let mut req: Request<u32> = Request::new(delivery(vec![1]), 0);

    let (_plan, do_ack) = req.finish(true, vec![2]);
    if do_ack {
        broker.acks += 1;
    }
    if req.abandon() {
        broker.nacks += 1;
    }
    assert_eq!(broker.acks, 1);
    assert_eq!(broker.commits(), 1);
}

#[test]
fn abandoned_handling_nacks_exactly_once() {
    // The sub-task died before acknowledging (a handler panic): the request
    // is destroyed unacknowledged and must be nacked with requeue.
    let mut broker = FakeBroker::new();
    let req: Request<u32> = Request::new(delivery(vec![1]), 0);

    if req.abandon() {
        broker.nacks += 1;
    }
    assert_eq!(broker.nacks, 1);
    assert_eq!(broker.commits(), 1);
}

#[test]
fn acker_extraction_transfers_the_commitment() {
    let mut broker = FakeBroker::new();
    let mut req: Request<u32> = Request::new(delivery(vec![1]), 0);

    let acker = req.take_acker().expect("first extraction succeeds");
    match acker.ack() {
        CommitKind::Ack => broker.acks += 1,
        CommitKind::Reject { .. } => broker.rejects += 1,
    }

    // The engine's own end-of-handling acknowledgment is skipped...
    let (_plan, do_ack) = req.finish(true, vec![]);
    if do_ack {
        broker.acks += 1;
    }
    // ...and so is the nack on destruction.
    if req.abandon() {
        broker.nacks += 1;
    }
    assert_eq!(broker.commits(), 1);
}

#[test]
fn acker_rejection_commits_exactly_once() {
    let mut broker = FakeBroker::new();
    let mut req: Request<u32> = Request::new(delivery(vec![1]), 0);

    let acker = req.take_acker().expect("first extraction succeeds");
    match acker.reject(true) {
        CommitKind::Ack => broker.acks += 1,
        CommitKind::Reject { requeue } => {
            assert!(requeue);
            broker.rejects += 1;
        }
    }
    if req.abandon() {
        broker.nacks += 1;
    }
    assert_eq!(broker.rejects, 1);
    assert_eq!(broker.commits(), 1);
}

#[test]
fn explicit_ack_marks_the_request_committed() {
    let mut req: Request<u32> = Request::new(delivery(vec![1]), 0);
    assert!(!req.acked);
    req.ack();
    assert!(req.acked);
    // Destruction after the commitment has nothing left to do.
    assert!(!req.abandon());
}

#[test]
fn taking_the_acker_twice_fails() {
    let mut req: Request<u32> = Request::new(delivery(vec![1]), 0);
    let first = req.take_acker();
    assert!(first.is_ok());
    let second = req.take_acker();
    assert_eq!(
        second.unwrap_err(),
        HandlerError::Internal(ServerError::AckerAlreadyExtracted)
    );
}

#[test]
fn finish_acks_regardless_of_reply_outcome() {
    // Publish failures are never escalated: the delivery is acknowledged
    // whether or not the reply could be published.
    let mut broker = FakeBroker::new();
    let mut req: Request<u32> = Request::new(
        Delivery {
            payload: vec![1],
            redelivered: false,
            app_id: None,
            reply_to: None,
            correlation_id: None,
            headers: None,
        },
        0,
    );
    let (plan, do_ack) = req.finish(true, vec![7]);
    assert!(plan.publish.is_none());
    assert!(plan.warn_unroutable_response);
    if do_ack {
        broker.acks += 1;
    }
    if req.abandon() {
        broker.nacks += 1;
    }
    assert_eq!(broker.commits(), 1);
}
