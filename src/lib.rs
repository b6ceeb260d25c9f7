//! Engine that turns a pair of network interfaces into a mirroring tap.

pub mod text;
pub mod types;
pub mod error;
pub mod cli;
pub mod qdisc;
pub mod ipv6;
pub mod engine;
pub mod laws;
