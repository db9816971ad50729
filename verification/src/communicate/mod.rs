//! The messages that flow between the SOCKS5 side, the tunnel and the server.
pub mod server_and_remote;
pub mod socks_and_client;

use vstd::prelude::*;

use crate::util::channel_helper::ChannelSender;

verus! {

/// A message to one port of a tunnel.
pub enum TunnelPortMsg {
    ConnectOk(Vec<u8>),
    Data(Vec<u8>),
    ShutdownWrite,
    ClosePort,
}

/// A message on a multiplexed tunnel (client to server: `CS`, server to client: `SC`).
pub enum TunnelMsg {
    CSOpenPort(u32, ChannelSender<TunnelPortMsg>),
    CSConnect(u32, Vec<u8>),
    CSConnectDN(u32, Vec<u8>, u16),
    CSUdpAssociate(u32, Vec<u8>),
    CSShutdownWrite(u32),
    CSClosePort(u32),
    CSData(u32, Vec<u8>),
    SCHeartbeat,
    SCClosePort(u32),
    SCShutdownWrite(u32),
    SCConnectOk(u32, Vec<u8>),
    SCData(u32, Vec<u8>),
    Heartbeat,
    TunnelPortHalfDrop(u32),
}

} // verus!
