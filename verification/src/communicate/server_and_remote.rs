//! Messages between the server's reader, its writer and the tasks that talk to remotes.
use vstd::prelude::*;

use crate::util::target_addr::TargetAddr;

verus! {

/// Everything the server's writer receives.
#[derive(Debug)]
pub enum ServerMsg {
    Heartbeat,
    ServerToRemote(ServerToRemote),
    RemoteToServer(RemoteToServer),
}

/// A request of the client, on its way to a remote.
#[derive(Debug)]
pub enum ServerToRemote {
    Heartbeat,
    TcpConnect(u32, TargetAddr),
    UdpAssociate(u32),
    UdpData(u32, TargetAddr, Box<Vec<u8>>),
    ClosePort(u32),
    Data(u32, Box<Vec<u8>>),
}

/// What a remote task reports, on its way to the client.
#[derive(Debug)]
pub enum RemoteToServer {
    TcpConnectSuccess(u32, TargetAddr),
    TcpConnectFailed(u32),
    UdpAssociateSuccess(u32),
    UdpAssociateFailed(u32),
    Data(u32, Box<Vec<u8>>),
    UdpData(u32, TargetAddr, Box<Vec<u8>>),
    ClosePort(u32),
}

/// To one remote task.
#[derive(Debug)]
pub enum RemoteMsg {
    Data(Box<Vec<u8>>),
    UdpData(TargetAddr, Box<Vec<u8>>),
    ClosePort(u32),
}

impl From<ServerToRemote> for ServerMsg {
    fn from(msg: ServerToRemote) -> (r: Self) {
        Self::ServerToRemote(msg)
    }
}

impl vstd::std_specs::convert::FromSpecImpl<ServerToRemote> for ServerMsg {
    open spec fn obeys_from_spec() -> bool {
        true
    }

    open spec fn from_spec(msg: ServerToRemote) -> Self {
        ServerMsg::ServerToRemote(msg)
    }
}

impl From<RemoteToServer> for ServerMsg {
    fn from(msg: RemoteToServer) -> (r: Self) {
        Self::RemoteToServer(msg)
    }
}

impl vstd::std_specs::convert::FromSpecImpl<RemoteToServer> for ServerMsg {
    open spec fn obeys_from_spec() -> bool {
        true
    }

    open spec fn from_spec(msg: RemoteToServer) -> Self {
        ServerMsg::RemoteToServer(msg)
    }
}

} // verus!
