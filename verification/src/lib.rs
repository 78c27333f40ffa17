//! A durable work-dispatch queue for plugin execution requests, together with
//! the message and configuration types of the services around it.
//!
//! The heart of the crate is [`queue`]: an execution-record store with
//! `enqueue`, `lease` and `acknowledge` operations whose contracts pin down
//! at-least-once delivery, the visibility window, terminal states and
//! age-based expiry.

pub mod analyzer_messages;
pub mod common;
pub mod nomad_models;
pub mod queue;
pub mod queue_laws;
pub mod quota_api;
pub mod schema_messages;
pub mod serialization;
pub mod uid_allocator_messages;
