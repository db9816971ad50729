//! Messages between the local SOCKS5 server and the client side of the tunnel.
use vstd::prelude::*;

use crate::util::channel_helper::ChannelSender;

use crate::util::target_addr::TargetAddr;

verus! {

/// From a SOCKS5 connection to the client's writer.
pub enum Socks5ToClientMsg {
    /// A new port, with the sender that reaches its SOCKS5 connection.
    InitChannel(u32, ChannelSender<SocksMsg>),
    TcpConnect(u32, TargetAddr),
    UdpAssociate(u32),
    Data(u32, Box<Vec<u8>>),
    UdpData(u32, TargetAddr, Box<Vec<u8>>),
    ClosePort(u32),
}

/// From the server (through the client's reader) to the client's writer.
#[derive(Debug)]
pub enum ClientToSocks5Msg {
    Heartbeat,
    Data(u32, Box<Vec<u8>>),
    UdpData(u32, TargetAddr, Box<Vec<u8>>),
    ClosePort(u32),
    TcpConnectSuccess(u32, TargetAddr),
    TcpConnectFailed(u32),
    UdpAssociateSuccess(u32),
    UdpAssociateFailed(u32),
}

/// To one SOCKS5 connection.
#[derive(Debug)]
pub enum SocksMsg {
    Data(Box<Vec<u8>>),
    UdpData(TargetAddr, Box<Vec<u8>>),
    ClosePort(u32),
    TcpConnectSuccess(u32, TargetAddr),
    TcpConnectFailed(u32),
    UdpAssociateSuccess(u32),
    UdpAssociateFailed(u32),
}

/// Everything the client's writer receives.
pub enum ClientMsg {
    Heartbeat,
    Socks5ToClient(Socks5ToClientMsg),
    ClientToSocks5(ClientToSocks5Msg),
}

impl From<Socks5ToClientMsg> for ClientMsg {
    fn from(msg: Socks5ToClientMsg) -> (r: Self) {
        Self::Socks5ToClient(msg)
    }
}

impl vstd::std_specs::convert::FromSpecImpl<Socks5ToClientMsg> for ClientMsg {
    open spec fn obeys_from_spec() -> bool {
        true
    }

    open spec fn from_spec(msg: Socks5ToClientMsg) -> Self {
        ClientMsg::Socks5ToClient(msg)
    }
}

impl From<ClientToSocks5Msg> for ClientMsg {
    fn from(msg: ClientToSocks5Msg) -> (r: Self) {
        Self::ClientToSocks5(msg)
    }
}

impl vstd::std_specs::convert::FromSpecImpl<ClientToSocks5Msg> for ClientMsg {
    open spec fn obeys_from_spec() -> bool {
        true
    }

    open spec fn from_spec(msg: ClientToSocks5Msg) -> Self {
        ClientMsg::ClientToSocks5(msg)
    }
}

} // verus!
