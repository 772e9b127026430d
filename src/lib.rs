//! Round-trip latency and throughput probing over a remote shell session.
//!
//! The library holds the probe engine's logic: the statistics over measured
//! round-trip times, the sequence-tagged echo frames and their correlation,
//! the connection classifier and pre-authentication probing, the throughput
//! accounting and the human-readable byte units. Times are plain microsecond
//! counts; the transport, timers and terminal output live with the caller.

pub mod args;
pub mod borrow_cell;
pub mod classify;
pub mod echo;
pub mod frame;
pub mod human_readable_unit;
pub mod interval;
pub mod preauth;
pub mod stats;
pub mod throughput;
