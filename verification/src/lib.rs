//! Verified core of a two-sided network throughput benchmark.
//!
//! A client repeatedly opens a connection to a peer, transfers a payload over
//! a bidirectional stream, and waits for a fixed acknowledgment; a server
//! drains whatever it receives and acknowledges. This crate holds the parts
//! worth proving: the wire constants, the peer-identity parsing, the
//! per-connection server session state machine, the client transfer
//! bookkeeping, and the exact-rational bandwidth statistics. The asynchronous
//! transport itself (connect, accept, stream I/O) lives outside and hands
//! this crate plain values.

pub mod identity;
pub mod protocol;
pub mod server;
pub mod stats;
pub mod transfer;
