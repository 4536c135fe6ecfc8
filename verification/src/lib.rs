//! A bidirectional bridge between many concurrent client connections and a
//! single shared message topic on an external broker.
//!
//! Messages published by any client are forwarded to the topic, and messages
//! arriving on the topic are fanned out to every connected client except the
//! one that originated them.  This crate holds the verified core: the event
//! envelope codec, the client message classifier, the connection registry,
//! the fan-out planner and the send scheduler's check-out discipline.  The
//! event loop around it (socket accept, broker subscribe, actual writes)
//! lives outside and hands plain values in and out.

pub mod common;
pub mod context;
pub mod consumer;
pub mod producer;
pub mod registry;
pub mod scheduler;
pub mod server;

pub use context::Context;
