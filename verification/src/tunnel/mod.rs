//! The ports of a multiplexed tunnel.
pub mod porthub;

pub use porthub::{Port, PortHub};
