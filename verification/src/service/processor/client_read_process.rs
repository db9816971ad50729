//! The client's reader: what each response of the server becomes on the client side.
use vstd::prelude::*;

use crate::communicate::socks_and_client::ClientToSocks5Msg;
use crate::error::{ServiceError, VpnError};
use crate::pb::command_response::Response;
use crate::pb::{CommandResponse, TcpConnectSuccess};

verus! {

/// The message a response becomes, if any: UDP data without a destination closes its
/// port, a connect success without a bound address is dropped.
pub open spec fn client_message_for(response: Response) -> Option<ClientToSocks5Msg> {
    match response {
        Response::Heartbeat(_) => Some(ClientToSocks5Msg::Heartbeat),
        Response::Data(data) => Some(ClientToSocks5Msg::Data(data.id, Box::new(data.data))),
        Response::UdpData(udp_data) => match udp_data.destination {
            Some(destination) => Some(
                ClientToSocks5Msg::UdpData(udp_data.id, destination, Box::new(udp_data.data)),
            ),
            None => Some(ClientToSocks5Msg::ClosePort(udp_data.id)),
        },
        Response::ClosePort(port) => Some(ClientToSocks5Msg::ClosePort(port)),
        Response::TcpConnectSuccess(success) => match success.bind_addr {
            Some(bind_addr) => Some(ClientToSocks5Msg::TcpConnectSuccess(success.id, bind_addr)),
            None => None,
        },
        Response::TcpConnectFailed(id) => Some(ClientToSocks5Msg::TcpConnectFailed(id)),
        Response::UdpAssociateSuccess(id) => Some(ClientToSocks5Msg::UdpAssociateSuccess(id)),
        Response::UdpAssociateFailed(id) => Some(ClientToSocks5Msg::UdpAssociateFailed(id)),
    }
}

/// Routes one response of the server: the message for the client's writer, if any, or an
/// error for a response without content, which ends the reader.
pub fn client_read_dispatch(res: CommandResponse) -> (r: Result<Option<ClientToSocks5Msg>, VpnError>)
    ensures
        match res.response {
            Some(response) => r == Ok::<Option<ClientToSocks5Msg>, VpnError>(
                client_message_for(response),
            ),
            None => r matches Err(VpnError::ServiceError(ServiceError::UnknownCommand(m))) && m@
                == "Unknown response"@,
        },
        res.response matches Some(Response::Heartbeat(_)) ==> r == Ok::<
            Option<ClientToSocks5Msg>,
            VpnError,
        >(Some(ClientToSocks5Msg::Heartbeat)),
        res.response matches Some(Response::Data(d)) ==> r == Ok::<Option<ClientToSocks5Msg>, VpnError>(
            Some(ClientToSocks5Msg::Data(d.id, Box::new(d.data))),
        ),
        res.response matches Some(Response::UdpData(u)) ==> r == Ok::<
            Option<ClientToSocks5Msg>,
            VpnError,
        >(
            Some(
                match u.destination {
                    Some(a) => ClientToSocks5Msg::UdpData(u.id, a, Box::new(u.data)),
                    None => ClientToSocks5Msg::ClosePort(u.id),
                },
            ),
        ),
        res.response matches Some(Response::ClosePort(id)) ==> r == Ok::<
            Option<ClientToSocks5Msg>,
            VpnError,
        >(Some(ClientToSocks5Msg::ClosePort(id))),
        res.response matches Some(Response::TcpConnectSuccess(t)) ==> r == Ok::<
            Option<ClientToSocks5Msg>,
            VpnError,
        >(
            match t.bind_addr {
                Some(a) => Some(ClientToSocks5Msg::TcpConnectSuccess(t.id, a)),
                None => None,
            },
        ),
        res.response matches Some(Response::TcpConnectFailed(id)) ==> r == Ok::<
            Option<ClientToSocks5Msg>,
            VpnError,
        >(Some(ClientToSocks5Msg::TcpConnectFailed(id))),
        res.response matches Some(Response::UdpAssociateSuccess(id)) ==> r == Ok::<
            Option<ClientToSocks5Msg>,
            VpnError,
        >(Some(ClientToSocks5Msg::UdpAssociateSuccess(id))),
        res.response matches Some(Response::UdpAssociateFailed(id)) ==> r == Ok::<
            Option<ClientToSocks5Msg>,
            VpnError,
        >(Some(ClientToSocks5Msg::UdpAssociateFailed(id))),
{
    match res.response {
        Some(Response::Heartbeat(_)) => Ok(Some(ClientToSocks5Msg::Heartbeat)),
        Some(Response::Data(data)) => Ok(Some(ClientToSocks5Msg::Data(data.id, Box::new(data.data)))),
        Some(Response::UdpData(udp_data)) => match udp_data.destination {
            Some(destination) => Ok(
                Some(ClientToSocks5Msg::UdpData(udp_data.id, destination, Box::new(udp_data.data))),
            ),
            None => Ok(Some(ClientToSocks5Msg::ClosePort(udp_data.id))),
        },
        Some(Response::ClosePort(port)) => Ok(Some(ClientToSocks5Msg::ClosePort(port))),
        Some(Response::TcpConnectSuccess(TcpConnectSuccess { id, bind_addr })) => match bind_addr {
            Some(bind_addr) => Ok(Some(ClientToSocks5Msg::TcpConnectSuccess(id, bind_addr))),
            None => Ok(None),
        },
        Some(Response::TcpConnectFailed(id)) => Ok(Some(ClientToSocks5Msg::TcpConnectFailed(id))),
        Some(Response::UdpAssociateSuccess(id)) => Ok(
            Some(ClientToSocks5Msg::UdpAssociateSuccess(id)),
        ),
        Some(Response::UdpAssociateFailed(id)) => Ok(
            Some(ClientToSocks5Msg::UdpAssociateFailed(id)),
        ),
        None => Err(
            VpnError::ServiceError(ServiceError::UnknownCommand("Unknown response".to_owned())),
        ),
    }
}

} // verus!
