//! Detailed configuration of a handler's queue binding and reply behaviour.

use vstd::prelude::*;

use crate::amqp::Arguments;
use crate::amqp::DeclareOptions;
use crate::amqp::HeaderValue;
use crate::amqp::inserted;

verus! {

/// The default value for the prefetch count.
pub const DEFAULT_PREFETCH: u16 = 64;

/// The default exchange is indicated by the empty string in AMQP.
/// Note that the default exchange is actually just a direct exchange with no name.
pub const DEFAULT_EXCHANGE: &'static str = "";

/// The direct exchange.
pub const DIRECT_EXCHANGE: &'static str = "amq.direct";

/// The topic exchange.
pub const TOPIC_EXCHANGE: &'static str = "amq.topic";

/// Detailed configuration of a handler.
///
/// Immutable once a task factory is built from it: the values here are
/// frozen into the declare, bind and consume calls that set the handler's
/// queue up.
#[derive(Debug, PartialEq, Eq)]
pub struct HandlerConfig {
    /// Queue name to bind to. By default, this will be the same as whatever
    /// routing key is used for the handler.
    pub queue: Option<String>,
    /// The exchange that the queue will be bound to.
    pub exchange: String,
    /// Prefetch for the queue: the broker-granted bound on concurrently
    /// unacknowledged deliveries.
    pub prefetch: u16,
    /// Queue declare options.
    pub options: DeclareOptions,
    /// Queue arguments (aka. x-arguments).
    pub arguments: Arguments,
    /// True indicates that the handler should reply to messages (the
    /// default). False indicates that the handler should *not* reply.
    pub should_reply: bool,
}

impl HandlerConfig {
    /// The arguments table keeps its keys unique.
    pub open spec fn wf(self) -> bool {
        self.arguments.wf()
    }

    /// Creates a new default configuration.
    pub fn new() -> (r: Self)
        ensures
            r.is_default(),
            r.wf(),
    {
        Self::default()
    }

    /// The shape of the default configuration: no queue-name override, the
    /// direct exchange, the default prefetch, auto-delete on, no arguments,
    /// and replies on.
    pub open spec fn is_default(self) -> bool {
        &&& self.queue is None
        &&& self.exchange@ == DIRECT_EXCHANGE@
        &&& self.prefetch == DEFAULT_PREFETCH
        &&& self.options == (DeclareOptions {
            passive: false,
            durable: false,
            exclusive: false,
            auto_delete: true,
            nowait: false,
        })
        &&& self.arguments.0@ =~= Seq::<(String, HeaderValue)>::empty()
        &&& self.should_reply
    }

    /// Sets the queue name of the handler. Defaults to the routing key.
    pub fn with_queue(self, queue: String) -> (r: Self)
        ensures
            r == (HandlerConfig { queue: Some(queue), ..self }),
    {
        HandlerConfig { queue: Some(queue), ..self }
    }

    /// Sets the exchange of the handler. Defaults to the direct exchange,
    /// [`DIRECT_EXCHANGE`].
    pub fn with_exchange(self, exchange: String) -> (r: Self)
        ensures
            r == (HandlerConfig { exchange, ..self }),
    {
        HandlerConfig { exchange, ..self }
    }

    /// Per consumer prefetch count.
    pub fn with_prefetch(self, prefetch: u16) -> (r: Self)
        ensures
            r == (HandlerConfig { prefetch, ..self }),
    {
        HandlerConfig { prefetch, ..self }
    }

    /// Overwrite the `auto-delete` property for the queue (defaults to `true`).
    pub fn with_auto_delete(self, auto_delete: bool) -> (r: Self)
        ensures
            r == (HandlerConfig {
                options: DeclareOptions { auto_delete, ..self.options },
                ..self
            }),
    {
        HandlerConfig { options: DeclareOptions { auto_delete, ..self.options }, ..self }
    }

    /// Set the `durable` property of the queue (defaults to `false`).
    pub fn with_durable(self, durable: bool) -> (r: Self)
        ensures
            r == (HandlerConfig {
                options: DeclareOptions { durable, ..self.options },
                ..self
            }),
    {
        HandlerConfig { options: DeclareOptions { durable, ..self.options }, ..self }
    }

    /// Queues will expire after `expires_ms` milliseconds without use (e.g.
    /// without consumers). The broker takes the value as a 32-bit number.
    pub fn with_expires(self, expires_ms: u64) -> (r: Self)
        requires
            self.wf(),
            expires_ms <= u32::MAX,
        ensures
            r.wf(),
            eq_but_arguments(r, self),
            inserted(
                self.arguments.0@,
                r.arguments.0@,
                "x-expires"@,
                HeaderValue::LongUInt(expires_ms as u32),
            ),
    {
        self.with_arg("x-expires".to_owned(), HeaderValue::LongUInt(expires_ms as u32))
    }

    /// Messages expire if not consumed within `message_ttl_ms` milliseconds.
    /// The broker takes the value as a 32-bit number.
    pub fn with_message_ttl(self, message_ttl_ms: u64) -> (r: Self)
        requires
            self.wf(),
            message_ttl_ms <= u32::MAX,
        ensures
            r.wf(),
            eq_but_arguments(r, self),
            inserted(
                self.arguments.0@,
                r.arguments.0@,
                "x-message-ttl"@,
                HeaderValue::LongUInt(message_ttl_ms as u32),
            ),
    {
        self.with_arg("x-message-ttl".to_owned(), HeaderValue::LongUInt(message_ttl_ms as u32))
    }

    /// Sets the `x-dead-letter-exchange` argument on the queue.
    pub fn with_dead_letter_exchange(self, dead_letter_exchange: String) -> (r: Self)
        requires
            self.wf(),
        ensures
            r.wf(),
            eq_but_arguments(r, self),
            inserted(
                self.arguments.0@,
                r.arguments.0@,
                "x-dead-letter-exchange"@,
                HeaderValue::LongString(dead_letter_exchange),
            ),
    {
        self.with_arg(
            "x-dead-letter-exchange".to_owned(),
            HeaderValue::LongString(dead_letter_exchange),
        )
    }

    /// Sets the `x-dead-letter-routing-key` argument on the queue.
    pub fn with_dead_letter_routing_key(self, dead_letter_routing_key: String) -> (r: Self)
        requires
            self.wf(),
        ensures
            r.wf(),
            eq_but_arguments(r, self),
            inserted(
                self.arguments.0@,
                r.arguments.0@,
                "x-dead-letter-routing-key"@,
                HeaderValue::LongString(dead_letter_routing_key),
            ),
    {
        self.with_arg(
            "x-dead-letter-routing-key".to_owned(),
            HeaderValue::LongString(dead_letter_routing_key),
        )
    }

    /// Set any argument with any value.
    ///
    /// Prefer the more specific methods if you can, but you can use this for
    /// any specific argument you might want to set.
    pub fn with_arg(self, arg: String, value: HeaderValue) -> (r: Self)
        requires
            self.wf(),
        ensures
            r.wf(),
            eq_but_arguments(r, self),
            inserted(self.arguments.0@, r.arguments.0@, arg@, value),
    {
        let mut c = self;
        c.arguments.insert(arg, value);
        c
    }

    /// Sets whether or not the handler should reply to messages. Defaults to
    /// true.
    pub fn with_replies(self, should_reply: bool) -> (r: Self)
        ensures
            r == (HandlerConfig { should_reply, ..self }),
    {
        HandlerConfig { should_reply, ..self }
    }
}

/// The two configurations agree on everything but the arguments table.
pub open spec fn eq_but_arguments(a: HandlerConfig, b: HandlerConfig) -> bool {
    &&& a.queue == b.queue
    &&& a.exchange == b.exchange
    &&& a.prefetch == b.prefetch
    &&& a.options == b.options
    &&& a.should_reply == b.should_reply
}

impl Default for HandlerConfig {
    /// The default configuration: no queue-name override, the direct
    /// exchange, the default prefetch, an auto-delete queue, no arguments,
    /// and replies on.
    fn default() -> (r: Self)
        ensures
            r.is_default(),
            r.wf(),
    {
        HandlerConfig {
            queue: None,
            exchange: DIRECT_EXCHANGE.to_owned(),
            prefetch: DEFAULT_PREFETCH,
            options: DeclareOptions {
                passive: false,
                durable: false,
                exclusive: false,
                auto_delete: true,
                nowait: false,
            },
            arguments: Arguments::new(),
            should_reply: true,
        }
    }
}

} // verus!
