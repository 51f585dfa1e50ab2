//! ICMP echo measurement core: echo-request construction, reply correlation,
//! per-probe deadlines, session statistics and the TTL sweep of a traceroute.
//!
//! The crate opens no socket and draws no screen. A front-end performs the
//! I/O, reads the monotonic clock, and reports what it observed to the state
//! machines here, which answer with what to do next.

pub mod address;
pub mod checksum;
pub mod correlate;
pub mod error;
mod identifier;
pub mod probe;
pub mod report;
pub mod session;
pub mod stats;
pub mod sweep;
pub mod text;
pub mod wire;
