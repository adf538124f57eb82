//! Request-id propagation and rendering.

use kanin::amqp::{Arguments, HeaderValue};
use kanin::extract::ReqId;
use kanin::request::{Delivery, Request};

fn delivery_with_headers(headers: Option<Arguments>) -> Delivery {
    Delivery {
        payload: vec![],
        redelivered: false,
        app_id: None,
        reply_to: None,
        correlation_id: None,
        headers,
    }
}

#[test]
fn a_req_id_header_is_propagated() {
    let headers = Arguments(vec![(
        "req_id".to_string(),
        HeaderValue::LongString("abc".to_string()),
    )]);
    let req: Request<u32> = Request::new(delivery_with_headers(Some(headers)), 0);
    assert_eq!(req.req_id().0, HeaderValue::LongString("abc".to_string()));
    assert_eq!(req.req_id().display_string(), "abc");
}

#[test]
fn a_missing_header_yields_a_fresh_id() {
    let req: Request<u32> = Request::new(delivery_with_headers(None), 0);
    match &req.req_id().0 {
        HeaderValue::LongString(s) => assert_eq!(s.len(), 36),
        other => panic!("a generated id is a long string, got {:?}", other),
    }

    let headers = Arguments(vec![(
        "other_header".to_string(),
        HeaderValue::LongString("abc".to_string()),
    )]);
    let req2: Request<u32> = Request::new(delivery_with_headers(Some(headers)), 0);
    match &req2.req_id().0 {
        HeaderValue::LongString(s) => assert_eq!(s.len(), 36),
        other => panic!("a generated id is a long string, got {:?}", other),
    }
}

#[test]
fn generated_ids_do_not_collide() {
    let mut ids: Vec<String> = Vec::new();
    for _ in 0..10_000 {
        match ReqId::new().0 {
            HeaderValue::LongString(s) => ids.push(s),
            other => panic!("a generated id is a long string, got {:?}", other),
        }
    }
    ids.sort();
    for pair in ids.windows(2) {
        assert_ne!(pair[0], pair[1], "two generated request ids collided");
    }
}

#[test]
fn ids_render_like_their_header_values() {
    assert_eq!(ReqId(HeaderValue::LongString("abc".to_string())).display_string(), "abc");
    assert_eq!(ReqId(HeaderValue::Boolean(true)).display_string(), "true");
    assert_eq!(ReqId(HeaderValue::Boolean(false)).display_string(), "false");
    assert_eq!(ReqId(HeaderValue::ShortShortInt(-5)).display_string(), "-5");
    assert_eq!(ReqId(HeaderValue::ShortShortUInt(200)).display_string(), "200");
    assert_eq!(ReqId(HeaderValue::ShortInt(-32768)).display_string(), "-32768");
    assert_eq!(ReqId(HeaderValue::ShortUInt(65535)).display_string(), "65535");
    assert_eq!(ReqId(HeaderValue::LongInt(-2147483648)).display_string(), "-2147483648");
    assert_eq!(ReqId(HeaderValue::LongUInt(4294967295)).display_string(), "4294967295");
    assert_eq!(ReqId(HeaderValue::LongLongInt(0)).display_string(), "0");
    assert_eq!(
        ReqId(HeaderValue::LongLongInt(i64::MIN)).display_string(),
        "-9223372036854775808"
    );
    assert_eq!(
        ReqId(HeaderValue::LongLongInt(i64::MAX)).display_string(),
        "9223372036854775807"
    );
    assert_eq!(ReqId(HeaderValue::Void).display_string(), "Void");
    assert_eq!(
        ReqId(HeaderValue::Opaque("12.5".to_string())).display_string(),
        "12.5"
    );
}

#[test]
fn default_ids_are_generated() {
    match ReqId::default().0 {
        HeaderValue::LongString(s) => assert_eq!(s.len(), 36),
        other => panic!("a generated id is a long string, got {:?}", other),
    }
}
