//! Trace-context propagation across HTTP and queue hops.
//!
//! A trace identity travels through carriers that share no header channel:
//! inbound request headers, outbound request headers and a field of a queue
//! message. This crate holds the data model and the rules of each hop, with
//! their contracts.

pub mod hex;
pub mod context;
pub mod traceparent;
pub mod carrier;
pub mod codec;
pub mod json;
pub mod envelope;
mod ambient;
pub mod span;
pub mod adapter;
pub mod config;
pub mod payload;
pub mod reply;
pub mod inbound;
pub mod outbound;
pub mod publish;
pub mod read_function;
pub mod post_function;
pub mod consumer;
pub mod lineage;
