//! Client-side logic for a real-time chat protocol: the wire message model
//! with its JSON encode/decode contract, the inbound actor's state machine
//! (handshake acknowledgement, heartbeat liveness, chat event batches), the
//! outbound encoding step, and the error taxonomy, all verified with Verus.
//!
//! Transport I/O, task scheduling and channel plumbing live outside this
//! crate; the functions here are pure decisions from plain values to plain
//! values, so everything that can go on a wire or into a queue is pinned
//! down by a contract.
pub mod api;
pub mod auth;
pub mod codec;
pub mod entities;
pub mod errors;
pub mod heartbeat;
pub mod json;
pub mod messages;
pub mod reader;
pub mod socket;
pub mod text;
