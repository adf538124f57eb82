//! Handler and queue configuration builders.

use kanin::amqp::HeaderValue;
use kanin::queue_config::QueueConfig;
use kanin::{handler_config, HandlerConfig};

#[test]
fn handler_config_defaults() {
    let c = HandlerConfig::new();
    assert_eq!(c.queue, None);
    assert_eq!(c.exchange, "amq.direct");
    assert_eq!(c.prefetch, 64);
    assert!(c.options.auto_delete);
    assert!(!c.options.durable);
    assert!(!c.options.passive);
    assert!(!c.options.exclusive);
    assert!(!c.options.nowait);
    assert_eq!(c.arguments.0.len(), 0);
    assert!(c.should_reply);
    assert_eq!(handler_config::DEFAULT_PREFETCH, 64);
    assert_eq!(handler_config::DEFAULT_EXCHANGE, "");
    assert_eq!(handler_config::DIRECT_EXCHANGE, "amq.direct");
    assert_eq!(handler_config::TOPIC_EXCHANGE, "amq.topic");
}

#[test]
fn handler_config_builders_set_their_fields() {
    let c = HandlerConfig::new()
        .with_queue("my_queue".to_string())
        .with_exchange("amq.topic".to_string())
        .with_prefetch(5)
        .with_auto_delete(false)
        .with_durable(true)
        .with_replies(false);
    assert_eq!(c.queue, Some("my_queue".to_string()));
    assert_eq!(c.exchange, "amq.topic");
    assert_eq!(c.prefetch, 5);
    assert!(!c.options.auto_delete);
    assert!(c.options.durable);
    assert!(!c.should_reply);
}

#[test]
fn handler_config_queue_arguments() {
    let c = HandlerConfig::new()
        .with_expires(3_600_000)
        .with_message_ttl(60_000)
        .with_dead_letter_exchange("dead_letters".to_string())
        .with_dead_letter_routing_key("dead_key".to_string());
    let args = &c.arguments.0;
    assert_eq!(args.len(), 4);
    assert_eq!(args[0], ("x-expires".to_string(), HeaderValue::LongUInt(3_600_000)));
    assert_eq!(args[1], ("x-message-ttl".to_string(), HeaderValue::LongUInt(60_000)));
    assert_eq!(
        args[2],
        (
            "x-dead-letter-exchange".to_string(),
            HeaderValue::LongString("dead_letters".to_string())
        )
    );
    assert_eq!(
        args[3],
        (
            "x-dead-letter-routing-key".to_string(),
            HeaderValue::LongString("dead_key".to_string())
        )
    );
}

#[test]
fn inserting_an_argument_twice_replaces_its_value() {
    let c = HandlerConfig::new()
        .with_arg("x-expires".to_string(), HeaderValue::LongUInt(1))
        .with_arg("x-max-length".to_string(), HeaderValue::LongUInt(7))
        .with_arg("x-expires".to_string(), HeaderValue::LongUInt(2));
    let args = &c.arguments.0;
    assert_eq!(args.len(), 2);
    assert_eq!(args[0], ("x-expires".to_string(), HeaderValue::LongUInt(2)));
    assert_eq!(args[1], ("x-max-length".to_string(), HeaderValue::LongUInt(7)));
}

#[test]
fn queue_config_defaults_and_builders() {
    let d = QueueConfig::new();
    assert_eq!(d.exchange, "");
    assert_eq!(d.prefetch, 64);
    assert!(d.options.auto_delete);

    let c = QueueConfig::new()
        .with_exchange("amq.direct".to_string())
        .with_prefetch(32)
        .with_auto_delete(false)
        .with_durable(true)
        .with_expires(1000)
        .with_message_ttl(2000);
    assert_eq!(c.exchange, "amq.direct");
    assert_eq!(c.prefetch, 32);
    assert!(!c.options.auto_delete);
    assert!(c.options.durable);
    assert_eq!(c.arguments.0.len(), 2);
    assert_eq!(c.arguments.0[0], ("x-expires".to_string(), HeaderValue::LongUInt(1000)));
    assert_eq!(c.arguments.0[1], ("x-message-ttl".to_string(), HeaderValue::LongUInt(2000)));
}

#[test]
fn argument_lookup_finds_the_stored_value() {
    let c = HandlerConfig::new().with_expires(5000);
    let key = "x-expires".to_string();
    assert_eq!(c.arguments.get(&key), Some(&HeaderValue::LongUInt(5000)));
    let missing = "x-message-ttl".to_string();
    assert_eq!(c.arguments.get(&missing), None);
}
