//! A small file-sharing protocol library: a server offers a directory
//! listing over a frame-based connection, a client picks a file by name
//! and receives its bytes in one binary frame.
//!
//! The protocol decisions on both sides are pure state-transition
//! functions; the surrounding transport, terminal and filesystem work is
//! left to the embedding program.

pub mod client;
pub mod frame;
pub mod input;
pub mod laws;
pub mod listing;
pub mod server;
pub mod transfer;

pub use transfer::throughput_bytes_per_sec;
