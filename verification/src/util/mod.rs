//! Addresses, configuration and channel helpers.
pub mod bytes;
pub mod channel_helper;
pub mod client_config;
pub mod server_config;
pub mod target_addr;

pub use channel_helper::{channel_bus, SubSenders};
pub use target_addr::TargetAddr;
