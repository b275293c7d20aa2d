//! A single-threaded TCP echo service core, driven by edge-triggered
//! readiness notifications.
//!
//! The verified library holds the connection reactor: the per-connection
//! read/write state machine ([`connection`]), the token-indexed connection
//! registry ([`registry`]), the event-dispatch logic ([`reactor`]), and
//! proofs about whole sequences of I/O outcomes ([`trace`]). The unverified
//! binary around it performs the socket reads, writes, accepts and
//! poll registrations, and hands every outcome to the library as a plain
//! value.

pub mod connection;
pub mod reactor;
pub mod registry;
pub mod trace;
