//! Core of a unidirectional TCP-to-broker bridge.
//!
//! The library holds the bridge's logic as verified, I/O-free code: the text
//! of topics and payload dumps, the per-connection relay state machine that
//! turns reads into publish requests, and the acceptor's liveness and
//! reconnect policy. A thin runtime around it performs the actual socket and
//! broker calls and feeds their outcomes back in as plain values.

pub mod acceptor;
pub mod addr;
pub mod digits;
pub mod hex;
pub mod message;
pub mod relay;
