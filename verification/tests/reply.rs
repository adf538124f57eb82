//! The reply decision matrix: publish-or-not and warning emission for each
//! combination of should-reply, reply destination and response content.

use kanin::response::decide_reply;

fn s(v: &str) -> String {
    v.to_string()
}

#[test]
fn reply_with_destination_and_correlation_publishes() {
    let plan = decide_reply(true, Some(s("replies")), Some(s("abc")), vec![1, 2, 3]);
    let publish = plan.publish.expect("a reply must be published");
    assert_eq!(publish.exchange, "");
    assert_eq!(publish.routing_key, "replies");
    assert_eq!(publish.payload, vec![1, 2, 3]);
    assert_eq!(publish.correlation_id, Some(s("abc")));
    assert_eq!(publish.content_type, "application/octet-stream");
    assert!(!plan.warn_missing_correlation_id);
    assert!(!plan.warn_empty_response);
    assert!(!plan.warn_unroutable_response);
}

#[test]
fn reply_without_correlation_warns_but_publishes() {
    let plan = decide_reply(true, Some(s("replies")), None, vec![9]);
    let publish = plan.publish.expect("a reply must be published");
    assert_eq!(publish.routing_key, "replies");
    assert_eq!(publish.correlation_id, None);
    assert!(plan.warn_missing_correlation_id);
    assert!(!plan.warn_empty_response);
    assert!(!plan.warn_unroutable_response);
}

#[test]
fn empty_reply_with_destination_publishes_and_warns() {
    let plan = decide_reply(true, Some(s("replies")), Some(s("abc")), vec![]);
    let publish = plan.publish.expect("a reply must be published even when empty");
    assert_eq!(publish.payload, Vec::<u8>::new());
    assert!(plan.warn_empty_response);
    assert!(!plan.warn_missing_correlation_id);
    assert!(!plan.warn_unroutable_response);
}

#[test]
fn nonempty_response_without_destination_cannot_publish_and_warns() {
    let plan = decide_reply(true, None, Some(s("abc")), vec![1]);
    assert!(plan.publish.is_none());
    assert!(plan.warn_unroutable_response);
    assert!(!plan.warn_missing_correlation_id);
    assert!(!plan.warn_empty_response);
}

#[test]
fn empty_response_without_destination_is_benign() {
    let plan = decide_reply(true, None, None, vec![]);
    assert!(plan.publish.is_none());
    assert!(!plan.warn_missing_correlation_id);
    assert!(!plan.warn_empty_response);
    assert!(!plan.warn_unroutable_response);
}

#[test]
fn never_publish_when_replies_are_off() {
    let with_dest = decide_reply(false, Some(s("replies")), Some(s("abc")), vec![1]);
    assert!(with_dest.publish.is_none());
    assert!(!with_dest.warn_missing_correlation_id);
    assert!(!with_dest.warn_empty_response);
    assert!(!with_dest.warn_unroutable_response);

    let without_dest = decide_reply(false, None, None, vec![1]);
    assert!(without_dest.publish.is_none());
    assert!(!without_dest.warn_unroutable_response);

    let empty = decide_reply(false, Some(s("replies")), None, vec![]);
    assert!(empty.publish.is_none());
    assert!(!empty.warn_empty_response);
}
