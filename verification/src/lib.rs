//! Lifecycle core of a federated GraphQL gateway.
//!
//! The crate holds the decisions of the gateway's lifecycle as verified
//! functions on plain values: what each kind of source emits, how the
//! sub-streams are cut at shutdown, how the supervising state machine reacts
//! to every event, what a server handle may hand out, and two small pieces of
//! the request pipeline. Awaiting, file access and sockets belong to the
//! caller, which feeds their outcomes in and carries the answers out.

pub mod configuration;
pub mod error;
pub mod event;
pub mod handle;
pub mod layers;
pub mod multiplexer;
pub mod query_plan;
pub mod router;
pub mod services;
pub mod source;
pub mod state_channel;
pub mod state_machine;
