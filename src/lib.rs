//! Transport decisions for a DNS client that runs on a cooperative scheduler.
//!
//! `addr` models socket addresses as plain values; `connect` holds the
//! state machine that decides, step by step, how an outbound stream is set up
//! (directly through the runtime, or bound to a chosen source address first)
//! and how every handle is released on each exit path.
pub mod addr;
pub mod connect;
