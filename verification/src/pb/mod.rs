//! The messages that cross the tunnel between client and server.
pub mod command_request;
pub mod command_response;

use vstd::prelude::*;

use crate::util::target_addr::TargetAddr;

use self::command_request::Command;
use self::command_response::Response;

verus! {

/// A request of the client to the server.
#[derive(Debug)]
pub struct CommandRequest {
    pub command: Option<Command>,
}

/// A response of the server to the client.
#[derive(Debug)]
pub struct CommandResponse {
    pub response: Option<Response>,
}

/// Open a TCP connection, as port `id`, to `destination`.
#[derive(Debug)]
pub struct TcpConnect {
    pub destination: Option<TargetAddr>,
    pub id: u32,
}

/// Bytes of port `id`.
#[derive(Debug)]
pub struct Data {
    pub id: u32,
    pub data: Vec<u8>,
}

/// A datagram of port `id`, to or from `destination`.
#[derive(Debug)]
pub struct UdpData {
    pub id: u32,
    pub destination: Option<TargetAddr>,
    pub data: Vec<u8>,
}

/// Port `id` is connected; the remote end is bound to `bind_addr`.
#[derive(Debug)]
pub struct TcpConnectSuccess {
    pub id: u32,
    pub bind_addr: Option<TargetAddr>,
}

/// The payload of a heartbeat.
#[derive(Debug, Clone, Copy, PartialEq, Eq, Structural)]
pub enum Heartbeat {
    Pingpong,
}

/// The number that a heartbeat carries.
pub const HEARTBEAT_PINGPONG: i32 = 0;

impl Heartbeat {
    pub fn as_i32(&self) -> (n: i32)
        ensures
            n == HEARTBEAT_PINGPONG,
    {
        HEARTBEAT_PINGPONG
    }
}

impl CommandRequest {
    pub fn new_tcp_connect(id: u32, target_addr: TargetAddr) -> (r: Self)
        ensures
            r == (CommandRequest {
                command: Some(Command::TcpConnect(TcpConnect { destination: Some(target_addr), id })),
            }),
    {
        let tcp_connect = TcpConnect { destination: Some(target_addr), id };
        Self { command: Some(Command::TcpConnect(tcp_connect)) }
    }

    pub fn new_associate_connect(id: u32) -> (r: Self)
        ensures
            r == (CommandRequest { command: Some(Command::UdpAssociate(id)) }),
    {
        Self { command: Some(Command::UdpAssociate(id)) }
    }

    pub fn new_close_port(id: u32) -> (r: Self)
        ensures
            r == (CommandRequest { command: Some(Command::ClosePort(id)) }),
    {
        Self { command: Some(Command::ClosePort(id)) }
    }

    pub fn new_data(id: u32, data: Vec<u8>) -> (r: Self)
        ensures
            r == (CommandRequest { command: Some(Command::Data(Data { id, data })) }),
    {
        Self { command: Some(Command::Data(Data { id, data })) }
    }

    pub fn new_udp_data(id: u32, target_addr: TargetAddr, data: Vec<u8>) -> (r: Self)
        ensures
            r == (CommandRequest {
                command: Some(Command::UdpData(UdpData { id, destination: Some(target_addr), data })),
            }),
    {
        Self { command: Some(Command::UdpData(UdpData { id, destination: Some(target_addr), data })) }
    }

    pub fn new_heartbeat() -> (r: Self)
        ensures
            r == (CommandRequest { command: Some(Command::Heartbeat(HEARTBEAT_PINGPONG)) }),
    {
        Self { command: Some(Command::Heartbeat(Heartbeat::Pingpong.as_i32())) }
    }
}

impl CommandResponse {
    pub fn new_data(id: u32, data: Vec<u8>) -> (r: Self)
        ensures
            r == (CommandResponse { response: Some(Response::Data(Data { id, data })) }),
    {
        Self { response: Some(Response::Data(Data { id, data })) }
    }

    pub fn new_udp_data(id: u32, target_addr: TargetAddr, data: Vec<u8>) -> (r: Self)
        ensures
            r == (CommandResponse {
                response: Some(Response::UdpData(UdpData { id, destination: Some(target_addr), data })),
            }),
    {
        Self { response: Some(Response::UdpData(UdpData { id, destination: Some(target_addr), data })) }
    }

    pub fn new_tcp_connect_success(id: u32, bind_addr: TargetAddr) -> (r: Self)
        ensures
            r == (CommandResponse {
                response: Some(Response::TcpConnectSuccess(TcpConnectSuccess { id, bind_addr: Some(bind_addr) })),
            }),
    {
        Self { response: Some(Response::TcpConnectSuccess(TcpConnectSuccess { id, bind_addr: Some(bind_addr) })) }
    }

    pub fn new_tcp_connect_failed(id: u32) -> (r: Self)
        ensures
            r == (CommandResponse { response: Some(Response::TcpConnectFailed(id)) }),
    {
        Self { response: Some(Response::TcpConnectFailed(id)) }
    }

    pub fn new_udp_associate_success(id: u32) -> (r: Self)
        ensures
            r == (CommandResponse { response: Some(Response::UdpAssociateSuccess(id)) }),
    {
        Self { response: Some(Response::UdpAssociateSuccess(id)) }
    }

    pub fn new_udp_associate_failed(id: u32) -> (r: Self)
        ensures
            r == (CommandResponse { response: Some(Response::UdpAssociateFailed(id)) }),
    {
        Self { response: Some(Response::UdpAssociateFailed(id)) }
    }

    pub fn new_close_port(id: u32) -> (r: Self)
        ensures
            r == (CommandResponse { response: Some(Response::ClosePort(id)) }),
    {
        Self { response: Some(Response::ClosePort(id)) }
    }

    pub fn new_heartbeat() -> (r: Self)
        ensures
            r == (CommandResponse { response: Some(Response::Heartbeat(HEARTBEAT_PINGPONG)) }),
    {
        Self { response: Some(Response::Heartbeat(Heartbeat::Pingpong.as_i32())) }
    }
}

} // verus!
