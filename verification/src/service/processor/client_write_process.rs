//! The client's writer: what it does with each message from the SOCKS5 side and from the
//! client's reader, and how it keeps its map of ports.
use vstd::prelude::*;

use crate::util::channel_helper::ChannelSender;

use crate::communicate::socks_and_client::{ClientToSocks5Msg, Socks5ToClientMsg, SocksMsg};
use crate::error::{ServiceError, VpnError};
use crate::pb::command_request::Command;
use crate::pb::{CommandRequest, Data, TcpConnect, UdpData};
use crate::service::ClientPortMap;

verus! {

broadcast use vstd::std_specs::hash::group_hash_axioms;

/// The request to the server that a message of the SOCKS5 side becomes, if any.
pub open spec fn request_for(msg: Socks5ToClientMsg) -> Option<CommandRequest> {
    match msg {
        Socks5ToClientMsg::InitChannel(..) => None,
        Socks5ToClientMsg::ClosePort(id) => Some(CommandRequest { command: Some(Command::ClosePort(id)) }),
        Socks5ToClientMsg::TcpConnect(id, addr) => Some(
            CommandRequest { command: Some(Command::TcpConnect(TcpConnect { destination: Some(addr), id })) },
        ),
        Socks5ToClientMsg::UdpAssociate(id) => Some(
            CommandRequest { command: Some(Command::UdpAssociate(id)) },
        ),
        Socks5ToClientMsg::Data(id, data) => Some(
            CommandRequest { command: Some(Command::Data(Data { id, data: *data })) },
        ),
        Socks5ToClientMsg::UdpData(id, addr, data) => Some(
            CommandRequest {
                command: Some(Command::UdpData(UdpData { id, destination: Some(addr), data: *data })),
            },
        ),
    }
}

/// Handles a message of the SOCKS5 side. A new port is added to the map (an id already in
/// use is an error, and its sender is replaced); a closed port is removed. Returns the
/// request to send to the server, if any.
pub fn process_socks5_to_client(msg: Socks5ToClientMsg, port_map: &mut ClientPortMap) -> (r: Result<
    Option<CommandRequest>,
    VpnError,
>)
    ensures
        match msg {
            Socks5ToClientMsg::InitChannel(id, tx) => final(port_map)@ == old(port_map)@.insert(
                id,
                tx,
            ) && (old(port_map)@.contains_key(id) ==> r == Err::<Option<CommandRequest>, VpnError>(
                VpnError::ServiceError(ServiceError::ChannelIdExists(id)),
            )) && (!old(port_map)@.contains_key(id) ==> r == Ok::<Option<CommandRequest>, VpnError>(None)),
            Socks5ToClientMsg::ClosePort(id) => final(port_map)@ == old(port_map)@.remove(id) && r
                == Ok::<Option<CommandRequest>, VpnError>(request_for(msg)),
            _ => final(port_map)@ == old(port_map)@ && r == Ok::<Option<CommandRequest>, VpnError>(
                request_for(msg),
            ),
        },
        msg matches Socks5ToClientMsg::ClosePort(id) ==> r == Ok::<Option<CommandRequest>, VpnError>(
            Some(CommandRequest { command: Some(Command::ClosePort(id)) }),
        ),
        msg matches Socks5ToClientMsg::TcpConnect(id, a) ==> r == Ok::<Option<CommandRequest>, VpnError>(
            Some(CommandRequest { command: Some(Command::TcpConnect(TcpConnect { destination: Some(a), id })) }),
        ),
        msg matches Socks5ToClientMsg::UdpAssociate(id) ==> r == Ok::<Option<CommandRequest>, VpnError>(
            Some(CommandRequest { command: Some(Command::UdpAssociate(id)) }),
        ),
        msg matches Socks5ToClientMsg::Data(id, d) ==> r == Ok::<Option<CommandRequest>, VpnError>(
            Some(CommandRequest { command: Some(Command::Data(Data { id, data: *d })) }),
        ),
        msg matches Socks5ToClientMsg::UdpData(id, a, d) ==> r == Ok::<Option<CommandRequest>, VpnError>(
            Some(CommandRequest { command: Some(Command::UdpData(UdpData { id, destination: Some(a), data: *d })) }),
        ),
{
    match msg {
        Socks5ToClientMsg::InitChannel(id, tx) => {
            if port_map.insert(id, tx).is_some() {
                return Err(VpnError::ServiceError(ServiceError::ChannelIdExists(id)));
            }
            Ok(None)
        },
        Socks5ToClientMsg::ClosePort(id) => {
            let _ = port_map.remove(&id);
            Ok(Some(CommandRequest::new_close_port(id)))
        },
        Socks5ToClientMsg::TcpConnect(id, addr) => Ok(Some(CommandRequest::new_tcp_connect(id, addr))),
        Socks5ToClientMsg::UdpAssociate(id) => Ok(Some(CommandRequest::new_associate_connect(id))),
        Socks5ToClientMsg::Data(id, data) => Ok(Some(CommandRequest::new_data(id, *data))),
        Socks5ToClientMsg::UdpData(id, target_addr, data) => Ok(
            Some(CommandRequest::new_udp_data(id, target_addr, *data)),
        ),
    }
}

/// Where a message for a SOCKS5 connection goes.
pub enum SocksDelivery {
    /// Nowhere.
    Nothing,
    /// To the port with this id, if the map still has it.
    ToPort(u32, SocksMsg),
    /// To this sender, of a port that was just removed from the map.
    ToClosedPort(ChannelSender<SocksMsg>, SocksMsg),
}

/// The message a SOCKS5 connection receives for a message of the client's reader, if any.
pub open spec fn socks_message_for(msg: ClientToSocks5Msg) -> Option<(u32, SocksMsg)> {
    match msg {
        ClientToSocks5Msg::Heartbeat => None,
        ClientToSocks5Msg::Data(id, data) => Some((id, SocksMsg::Data(data))),
        ClientToSocks5Msg::UdpData(id, addr, data) => Some((id, SocksMsg::UdpData(addr, data))),
        ClientToSocks5Msg::ClosePort(id) => Some((id, SocksMsg::ClosePort(id))),
        ClientToSocks5Msg::TcpConnectSuccess(id, addr) => Some(
            (id, SocksMsg::TcpConnectSuccess(id, addr)),
        ),
        ClientToSocks5Msg::TcpConnectFailed(id) => Some((id, SocksMsg::TcpConnectFailed(id))),
        ClientToSocks5Msg::UdpAssociateSuccess(id) => Some(
            (id, SocksMsg::UdpAssociateSuccess(id)),
        ),
        ClientToSocks5Msg::UdpAssociateFailed(id) => Some((id, SocksMsg::UdpAssociateFailed(id))),
    }
}

/// Handles a message of the client's reader: a heartbeat does nothing, a port's close is
/// delivered to that port, which leaves the map, everything else is delivered to its
/// port.
pub fn process_client_to_socks5(msg: ClientToSocks5Msg, port_map: &mut ClientPortMap) -> (r:
    SocksDelivery)
    ensures
        match msg {
            ClientToSocks5Msg::ClosePort(id) => final(port_map)@ == old(port_map)@.remove(id) && (
            if old(port_map)@.contains_key(id) {
                r matches SocksDelivery::ToClosedPort(tx, m) && tx == old(port_map)@[id] && m
                    == SocksMsg::ClosePort(id)
            } else {
                r is Nothing
            }),
            _ => final(port_map)@ == old(port_map)@ && match socks_message_for(msg) {
                Some((id, m)) => r == SocksDelivery::ToPort(id, m),
                None => r is Nothing,
            },
        },
        msg is Heartbeat ==> r is Nothing,
        msg matches ClientToSocks5Msg::Data(id, d) ==> r == SocksDelivery::ToPort(
            id,
            SocksMsg::Data(d),
        ),
        msg matches ClientToSocks5Msg::UdpData(id, a, d) ==> r == SocksDelivery::ToPort(
            id,
            SocksMsg::UdpData(a, d),
        ),
        msg matches ClientToSocks5Msg::TcpConnectSuccess(id, a) ==> r == SocksDelivery::ToPort(
            id,
            SocksMsg::TcpConnectSuccess(id, a),
        ),
        msg matches ClientToSocks5Msg::TcpConnectFailed(id) ==> r == SocksDelivery::ToPort(
            id,
            SocksMsg::TcpConnectFailed(id),
        ),
        msg matches ClientToSocks5Msg::UdpAssociateSuccess(id) ==> r == SocksDelivery::ToPort(
            id,
            SocksMsg::UdpAssociateSuccess(id),
        ),
        msg matches ClientToSocks5Msg::UdpAssociateFailed(id) ==> r == SocksDelivery::ToPort(
            id,
            SocksMsg::UdpAssociateFailed(id),
        ),
{
    match msg {
        ClientToSocks5Msg::Heartbeat => SocksDelivery::Nothing,
        ClientToSocks5Msg::Data(id, data) => SocksDelivery::ToPort(id, SocksMsg::Data(data)),
        ClientToSocks5Msg::UdpData(id, target_addr, data) => SocksDelivery::ToPort(
            id,
            SocksMsg::UdpData(target_addr, data),
        ),
        ClientToSocks5Msg::ClosePort(id) => match port_map.remove(&id) {
            Some(tx) => SocksDelivery::ToClosedPort(tx, SocksMsg::ClosePort(id)),
            None => SocksDelivery::Nothing,
        },
        ClientToSocks5Msg::TcpConnectSuccess(id, bind_addr) => SocksDelivery::ToPort(
            id,
            SocksMsg::TcpConnectSuccess(id, bind_addr),
        ),
        ClientToSocks5Msg::TcpConnectFailed(id) => SocksDelivery::ToPort(
            id,
            SocksMsg::TcpConnectFailed(id),
        ),
        ClientToSocks5Msg::UdpAssociateSuccess(id) => SocksDelivery::ToPort(
            id,
            SocksMsg::UdpAssociateSuccess(id),
        ),
        ClientToSocks5Msg::UdpAssociateFailed(id) => SocksDelivery::ToPort(
            id,
            SocksMsg::UdpAssociateFailed(id),
        ),
    }
}

} // verus!
