//! Bootstrap for a process-wide structured logging subsystem.
//!
//! The crate models and decides the initialization sequence that composes a
//! level filter, a console sink and a daily-rotating file sink into a single
//! dispatcher, installed at most once per process. The surrounding program
//! performs the actual I/O (directory probing, environment lookup, sink
//! wiring); this library makes every decision: which filter is active, when
//! initialization fails and with which error, which file a record of a given
//! calendar day belongs to, and what the non-blocking forwarder guarantees
//! about delivery when its guard is destroyed.

pub mod bootstrap;
pub mod channel;
pub mod date;
pub mod filter;
pub mod level;
pub mod rotation;
