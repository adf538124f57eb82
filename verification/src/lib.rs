//! # kanin
//!
//! A framework for building RPC-style microservices that communicate over an
//! AMQP message broker, built on top of [`lapin`].
//!
//! The crate verifies the core consumer engine: the per-queue task lifecycle,
//! extraction-based dispatch, the acknowledgment/requeue guarantees and the
//! graceful shutdown and drain coordination. The broker wire protocol itself,
//! message encoding and the async runtime are external collaborators: the
//! engine here is expressed over plain values (payload bytes, reply metadata,
//! task states and events), and an unverified shell performs the actual
//! broker calls that the engine's decisions call for.

pub mod amqp;
pub mod app;
pub mod echo;
pub mod error;
pub mod extract;
pub mod handler;
pub mod handler_config;
pub mod queue_config;
pub mod request;
pub mod response;
pub mod task;

pub use app::App;
pub use error::Error;
pub use error::HandlerError;
pub use extract::Extract;
pub use handler::Handler;
pub use handler_config::HandlerConfig;
pub use request::Request;
pub use response::Respond;
