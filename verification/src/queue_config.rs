//! Detailed configuration of a queue.

use vstd::prelude::*;

use crate::amqp::Arguments;
use crate::amqp::DeclareOptions;
use crate::amqp::HeaderValue;
use crate::amqp::inserted;

verus! {

/// The default value for the prefetch count.
pub const DEFAULT_PREFETCH: u16 = 64;

/// The default exchange is indicated by the empty string in AMQP.
/// Note that the default exchange is actually just a direct exchange with no name.
pub const DEFAULT_EXCHANGE: &'static str = "";

/// The direct exchange.
pub const DIRECT_EXCHANGE: &'static str = "amq.direct";

/// The topic exchange.
pub const TOPIC_EXCHANGE: &'static str = "amq.topic";

/// Detailed configuration of a queue.
#[derive(Debug, PartialEq, Eq)]
pub struct QueueConfig {
    /// The exchange that the queue will be bound to.
    pub exchange: String,
    /// Prefetch for the queue.
    pub prefetch: u16,
    /// Queue declare options.
    pub options: DeclareOptions,
    /// Queue arguments (aka. x-arguments).
    pub arguments: Arguments,
}

impl QueueConfig {
    /// The arguments table keeps its keys unique.
    pub open spec fn wf(self) -> bool {
        self.arguments.wf()
    }

    /// The shape of the default configuration: the default (unnamed)
    /// exchange, the default prefetch, auto-delete on, and no arguments.
    pub open spec fn is_default(self) -> bool {
        &&& self.exchange@ == DEFAULT_EXCHANGE@
        &&& self.prefetch == DEFAULT_PREFETCH
        &&& self.options == (DeclareOptions {
            passive: false,
            durable: false,
            exclusive: false,
            auto_delete: true,
            nowait: false,
        })
        &&& self.arguments.0@ =~= Seq::<(String, HeaderValue)>::empty()
    }

    /// Creates a new default configuration.
    pub fn new() -> (r: Self)
        ensures
            r.is_default(),
            r.wf(),
    {
        Self::default()
    }

    /// Sets the exchange of the queue.
    pub fn with_exchange(self, exchange: String) -> (r: Self)
        ensures
            r == (QueueConfig { exchange, ..self }),
    {
        QueueConfig { exchange, ..self }
    }

    /// Per consumer prefetch count.
    pub fn with_prefetch(self, prefetch: u16) -> (r: Self)
        ensures
            r == (QueueConfig { prefetch, ..self }),
    {
        QueueConfig { prefetch, ..self }
    }

    /// Overwrite the `auto-delete` property for the queue (defaults to `true`).
    pub fn with_auto_delete(self, auto_delete: bool) -> (r: Self)
        ensures
            r == (QueueConfig {
                options: DeclareOptions { auto_delete, ..self.options },
                ..self
            }),
    {
        QueueConfig { options: DeclareOptions { auto_delete, ..self.options }, ..self }
    }

    /// Set the `durable` property of the queue (defaults to `false`).
    pub fn with_durable(self, durable: bool) -> (r: Self)
        ensures
            r == (QueueConfig {
                options: DeclareOptions { durable, ..self.options },
                ..self
            }),
    {
        QueueConfig { options: DeclareOptions { durable, ..self.options }, ..self }
    }

    /// Queues will expire after a period without use (e.g. without
    /// consumers). The value is in milliseconds, so `3600000 = 1 hour`.
    pub fn with_expires(self, expires: u32) -> (r: Self)
        requires
            self.wf(),
        ensures
            r.wf(),
            r.exchange == self.exchange,
            r.prefetch == self.prefetch,
            r.options == self.options,
            inserted(
                self.arguments.0@,
                r.arguments.0@,
                "x-expires"@,
                HeaderValue::LongUInt(expires),
            ),
    {
        let mut c = self;
        c.arguments.insert("x-expires".to_owned(), HeaderValue::LongUInt(expires));
        c
    }

    /// Messages expire if not consumed within `message_ttl` milliseconds.
    /// The value is in milliseconds, so `3600000 = 1 hour`.
    pub fn with_message_ttl(self, message_ttl: u32) -> (r: Self)
        requires
            self.wf(),
        ensures
            r.wf(),
            r.exchange == self.exchange,
            r.prefetch == self.prefetch,
            r.options == self.options,
            inserted(
                self.arguments.0@,
                r.arguments.0@,
                "x-message-ttl"@,
                HeaderValue::LongUInt(message_ttl),
            ),
    {
        let mut c = self;
        c.arguments.insert("x-message-ttl".to_owned(), HeaderValue::LongUInt(message_ttl));
        c
    }
}

impl Default for QueueConfig {
    /// The default configuration: the default (unnamed) exchange, the
    /// default prefetch, an auto-delete queue, and no arguments.
    fn default() -> (r: Self)
        ensures
            r.is_default(),
            r.wf(),
    {
        QueueConfig {
            exchange: DEFAULT_EXCHANGE.to_owned(),
            prefetch: DEFAULT_PREFETCH,
            options: DeclareOptions {
                passive: false,
                durable: false,
                exclusive: false,
                auto_delete: true,
                nowait: false,
            },
            arguments: Arguments::new(),
        }
    }
}

} // verus!
