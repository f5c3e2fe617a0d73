//! Session-local diagnostics for BGP announcements lost before RIB insertion.
//!
//! A session counts what its peer announces and how much of that is dropped on
//! the way to the routing table, and decides when a counter has grown enough to
//! deserve a log line.  The counters and the decisions are verified here; the
//! caller writes the log lines that the returned reports ask for.

pub mod count;
pub mod diagnostics;
pub mod laws;
pub mod message;
pub mod power;
pub mod session;
