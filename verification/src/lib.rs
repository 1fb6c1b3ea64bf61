//! Dia: a sequencer that gives distributed events one global order.
//!
//! Clients multicast proposals (a 16-byte message id followed by the
//! serialized payload); the sequencer stamps each proposal with a header
//! carrying the id, a sequence number and a timestamp, and multicasts the
//! stamped packet to every client. This crate holds the verified core of
//! that protocol: the wire format, the sequencer's numbering and the
//! client's bookkeeping of its single in-flight message.

pub mod client;
pub mod error;
pub mod laws;
pub mod network;
pub mod sequencer;
pub mod types;
