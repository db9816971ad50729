//! Ports and tunnels.
pub mod client_tunnel;
pub mod server_tunnel;
pub mod tunnel_read;
pub mod tunnel_write;

pub use client_tunnel::{QuicTunnel, S2nTunnel, TcpTunnel, Tunnel};
pub use tunnel_read::TunnelReader;
pub use tunnel_write::TunnelWriter;
