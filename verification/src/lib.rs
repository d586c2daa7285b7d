//! Core of a durable HTTP-delivered event broker.
//!
//! Producers publish typed events; consumers subscribe to event types and
//! receive deliveries by HTTP POST. The broker validates payloads against
//! per-type JSON schemas, persists every accepted event, fans the event out
//! to all subscribers of its type, records per-delivery success, and retries
//! failed deliveries on a capped, linear schedule.
//!
//! This crate holds the verified core: the data model, the in-memory storage
//! driver, the bounded dispatch queue, the publish pipeline, the delivery
//! bookkeeping, and the retry scheduler's selection rule. The HTTP plumbing
//! around it (server, client, relational driver) lives outside.

pub mod errors;
pub mod laws;
pub mod persistence;
pub mod queue;
pub mod queue_service;
pub mod runtime;
pub mod schema_validator;
pub mod types;
