//! Lifecycle control for a single, process-wide CPU-profiling session that a
//! query engine starts and stops through two table-producing functions,
//! `trace_start(url)` and `trace_stop()`.
//!
//! The library decides; a host carries the decisions out. The host owns the
//! one slot of the process and the lock around it, binds and polls the calls,
//! and writes the rows. It hands each poll the call's cursor and, if it got
//! the lock, the slot.
//!
//! - [`protocol`] states as mathematics what a poll does to cursor and slot
//!   and what it hands back; [`laws`] proves what follows for every sequence
//!   of polls.
//! - [`cursor`], [`singleton`], [`start_session`] and [`stop_session`] are the
//!   executable counterparts, verified against the protocol.
//! - [`agent`] brings sessions up and tears them down through the profiling
//!   client; [`client`] holds the calls into that client, which are trusted
//!   rather than verified.
//! - [`status`] and [`error`] define what the host shows to its user.

pub mod agent;
pub mod client;
pub mod cursor;
pub mod error;
pub mod laws;
pub mod protocol;
pub mod singleton;
pub mod start_session;
pub mod status;
pub mod stop_session;
