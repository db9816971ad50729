//! The server's reader: what each request of the client becomes on the server side.
use vstd::prelude::*;

use crate::communicate::server_and_remote::ServerToRemote;
use crate::pb::command_request::Command;
use crate::pb::CommandRequest;

verus! {

/// The message a request becomes, if any: a connect or UDP data without a destination,
/// and a request without a command, are dropped.
pub open spec fn server_message_for(req: CommandRequest) -> Option<ServerToRemote> {
    match req.command {
        Some(Command::Heartbeat(_)) => Some(ServerToRemote::Heartbeat),
        Some(Command::TcpConnect(tcp_connect)) => match tcp_connect.destination {
            Some(addr) => Some(ServerToRemote::TcpConnect(tcp_connect.id, addr)),
            None => None,
        },
        Some(Command::UdpAssociate(id)) => Some(ServerToRemote::UdpAssociate(id)),
        Some(Command::UdpData(udp_data)) => match udp_data.destination {
            Some(addr) => Some(ServerToRemote::UdpData(udp_data.id, addr, Box::new(udp_data.data))),
            None => None,
        },
        Some(Command::ClosePort(id)) => Some(ServerToRemote::ClosePort(id)),
        Some(Command::Data(data)) => Some(ServerToRemote::Data(data.id, Box::new(data.data))),
        None => None,
    }
}

/// Routes one request of the client to the server's writer.
pub fn server_read_dispatch(req: CommandRequest) -> (r: Option<ServerToRemote>)
    ensures
        r == server_message_for(req),
        req.command is None ==> r is None,
        req.command matches Some(Command::Heartbeat(_)) ==> r == Some(ServerToRemote::Heartbeat),
        req.command matches Some(Command::TcpConnect(t)) ==> r == match t.destination {
            Some(a) => Some(ServerToRemote::TcpConnect(t.id, a)),
            None => None::<ServerToRemote>,
        },
        req.command matches Some(Command::UdpAssociate(id)) ==> r == Some(
            ServerToRemote::UdpAssociate(id),
        ),
        req.command matches Some(Command::UdpData(u)) ==> r == match u.destination {
            Some(a) => Some(ServerToRemote::UdpData(u.id, a, Box::new(u.data))),
            None => None::<ServerToRemote>,
        },
        req.command matches Some(Command::ClosePort(id)) ==> r == Some(ServerToRemote::ClosePort(id)),
        req.command matches Some(Command::Data(d)) ==> r == Some(
            ServerToRemote::Data(d.id, Box::new(d.data)),
        ),
{
    match req.command {
        Some(Command::Heartbeat(_)) => Some(ServerToRemote::Heartbeat),
        Some(Command::TcpConnect(tcp_connect)) => match tcp_connect.destination {
            None => None,
            Some(target_addr) => Some(ServerToRemote::TcpConnect(tcp_connect.id, target_addr)),
        },
        Some(Command::UdpAssociate(id)) => Some(ServerToRemote::UdpAssociate(id)),
        Some(Command::UdpData(udp_data)) => match udp_data.destination {
            None => None,
            Some(target_addr) => Some(
                ServerToRemote::UdpData(udp_data.id, target_addr, Box::new(udp_data.data)),
            ),
        },
        Some(Command::ClosePort(id)) => Some(ServerToRemote::ClosePort(id)),
        Some(Command::Data(data)) => Some(ServerToRemote::Data(data.id, Box::new(data.data))),
        None => None,
    }
}

} // verus!
