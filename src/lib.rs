//! Lane-level helpers for a message bridge between two chains: a registry of
//! lanes with their routes and channel-status providers, per-lane congestion
//! signalling with hysteresis, a multiplexer that lets several lanes share one
//! transport, and the gates that refuse inbound proofs and delivery
//! transactions for lanes whose local outbound channel is inactive.
pub mod chain_spec;
pub mod congestion;
pub mod hauler;
pub mod inbound;
pub mod lane;
pub mod refund;
pub mod registry;
pub mod status;
