//! How the client and the server route each message they receive.
pub mod client_read_process;
pub mod client_write_process;
pub mod server_read_process;
pub mod server_write_process;

use vstd::prelude::*;

use crate::util::channel_helper::ChannelSender;

use crate::communicate::server_and_remote::{RemoteMsg, RemoteToServer, ServerToRemote};
use crate::communicate::socks_and_client::{ClientToSocks5Msg, Socks5ToClientMsg, SocksMsg};

use crate::pb::command_request::Command;
use crate::pb::command_response::Response;
use crate::pb::{CommandRequest, Data, TcpConnect, TcpConnectSuccess, UdpData};
use crate::socks5::socks5_processor::connect_bind_addr;
use crate::util::target_addr::{SocketAddr, TargetAddr};

use self::client_read_process::client_message_for;
use self::client_write_process::{request_for, socks_message_for};
use self::server_read_process::server_message_for;
use self::server_write_process::response_for;

verus! {

/// Every message of a SOCKS5 connection but a port's registration crosses the tunnel
/// unchanged: the client's writer turns it into a request, and the server's reader turns
/// that request into the same message for the server's writer.
pub proof fn lemma_requests_cross_tunnel(msg: Socks5ToClientMsg)
    requires
        !(msg is InitChannel),
    ensures
        request_for(msg) is Some,
        match msg {
            Socks5ToClientMsg::TcpConnect(id, addr) => server_message_for(request_for(msg)->0)
                == Some(ServerToRemote::TcpConnect(id, addr)),
            Socks5ToClientMsg::UdpAssociate(id) => server_message_for(request_for(msg)->0)
                == Some(ServerToRemote::UdpAssociate(id)),
            Socks5ToClientMsg::Data(id, data) => server_message_for(request_for(msg)->0)
                == Some(ServerToRemote::Data(id, data)),
            Socks5ToClientMsg::UdpData(id, addr, data) => server_message_for(
                request_for(msg)->0,
            ) == Some(ServerToRemote::UdpData(id, addr, data)),
            Socks5ToClientMsg::ClosePort(id) => server_message_for(request_for(msg)->0)
                == Some(ServerToRemote::ClosePort(id)),
            Socks5ToClientMsg::InitChannel(..) => false,
        },
{
}

/// Every report of a remote task crosses the tunnel unchanged: the server's writer turns
/// it into a response, and the client's reader turns that response into the same message
/// for the SOCKS5 side.
pub proof fn lemma_responses_cross_tunnel(msg: RemoteToServer)
    ensures
        response_for(msg).response is Some,
        client_message_for(response_for(msg).response->0) == Some(
            match msg {
                RemoteToServer::TcpConnectSuccess(id, addr) => ClientToSocks5Msg::TcpConnectSuccess(
                    id,
                    addr,
                ),
                RemoteToServer::TcpConnectFailed(id) => ClientToSocks5Msg::TcpConnectFailed(id),
                RemoteToServer::UdpAssociateSuccess(id) => ClientToSocks5Msg::UdpAssociateSuccess(
                    id,
                ),
                RemoteToServer::UdpAssociateFailed(id) => ClientToSocks5Msg::UdpAssociateFailed(
                    id,
                ),
                RemoteToServer::Data(id, data) => ClientToSocks5Msg::Data(id, data),
                RemoteToServer::UdpData(id, addr, data) => ClientToSocks5Msg::UdpData(id, addr, data),
                RemoteToServer::ClosePort(id) => ClientToSocks5Msg::ClosePort(id),
            },
        ),
{
}

/// A port that the client's writer registers and then closes leaves its map as it was
/// before, when the id was free: registration inserts the id, closing removes it.
pub proof fn lemma_client_port_open_close(
    ports: Map<u32, ChannelSender<SocksMsg>>,
    id: u32,
    tx: ChannelSender<SocksMsg>,
)
    requires
        !ports.contains_key(id),
    ensures
        ports.insert(id, tx).remove(id) == ports,
{
    assert(ports.insert(id, tx).remove(id) =~= ports);
}

/// A port that the server's writer opens (for a connect or an association) and then closes
/// leaves the ids of its map as they were before, when the id was free.
pub proof fn lemma_server_port_open_close(
    before: Map<u32, ChannelSender<RemoteMsg>>,
    opened: Map<u32, ChannelSender<RemoteMsg>>,
    id: u32,
)
    requires
        !before.contains_key(id),
        opened.dom() == before.dom().insert(id),
    ensures
        opened.remove(id).dom() == before.dom(),
{
    assert(opened.remove(id).dom() =~= before.dom());
}

/// Each message of a SOCKS5 connection becomes the request of the same kind, with the same
/// id and the same destination and bytes: a connect a connect, an association an
/// association, data data, a datagram a datagram, a close a close.
pub proof fn lemma_requests_keep_kind(id: u32, addr: TargetAddr, bytes: Vec<u8>)
    ensures
        request_for(Socks5ToClientMsg::TcpConnect(id, addr)) == Some(
            CommandRequest { command: Some(Command::TcpConnect(TcpConnect { destination: Some(addr), id })) },
        ),
        request_for(Socks5ToClientMsg::UdpAssociate(id)) == Some(
            CommandRequest { command: Some(Command::UdpAssociate(id)) },
        ),
        request_for(Socks5ToClientMsg::Data(id, Box::new(bytes))) == Some(
            CommandRequest { command: Some(Command::Data(Data { id, data: bytes })) },
        ),
        request_for(Socks5ToClientMsg::UdpData(id, addr, Box::new(bytes))) == Some(
            CommandRequest {
                command: Some(Command::UdpData(UdpData { id, destination: Some(addr), data: bytes })),
            },
        ),
        request_for(Socks5ToClientMsg::ClosePort(id)) == Some(
            CommandRequest { command: Some(Command::ClosePort(id)) },
        ),
{
}

/// The server's reader turns each request into the message of the same kind, with the
/// same id, destination and bytes; TCP data is never taken for a datagram, and a
/// datagram without destination is dropped.
pub proof fn lemma_server_reader_keeps_kind(id: u32, addr: TargetAddr, bytes: Vec<u8>)
    ensures
        server_message_for(CommandRequest { command: Some(Command::Data(Data { id, data: bytes })) })
            == Some(ServerToRemote::Data(id, Box::new(bytes))),
        server_message_for(
            CommandRequest {
                command: Some(Command::UdpData(UdpData { id, destination: Some(addr), data: bytes })),
            },
        ) == Some(ServerToRemote::UdpData(id, addr, Box::new(bytes))),
        server_message_for(
            CommandRequest {
                command: Some(Command::UdpData(UdpData { id, destination: None, data: bytes })),
            },
        ) is None,
        server_message_for(
            CommandRequest { command: Some(Command::TcpConnect(TcpConnect { destination: Some(addr), id })) },
        ) == Some(ServerToRemote::TcpConnect(id, addr)),
        server_message_for(CommandRequest { command: Some(Command::UdpAssociate(id)) }) == Some(
            ServerToRemote::UdpAssociate(id),
        ),
        server_message_for(CommandRequest { command: Some(Command::ClosePort(id)) }) == Some(
            ServerToRemote::ClosePort(id),
        ),
{
}

/// Each report of a remote task becomes the response of the same kind with the same
/// fields: a success stays a success and a failure a failure, for connects and for
/// associations alike.
pub proof fn lemma_reports_keep_kind(id: u32, addr: TargetAddr, bytes: Vec<u8>)
    ensures
        response_for(RemoteToServer::TcpConnectSuccess(id, addr)).response == Some(
            Response::TcpConnectSuccess(TcpConnectSuccess { id, bind_addr: Some(addr) }),
        ),
        response_for(RemoteToServer::TcpConnectFailed(id)).response == Some(
            Response::TcpConnectFailed(id),
        ),
        response_for(RemoteToServer::UdpAssociateSuccess(id)).response == Some(
            Response::UdpAssociateSuccess(id),
        ),
        response_for(RemoteToServer::UdpAssociateFailed(id)).response == Some(
            Response::UdpAssociateFailed(id),
        ),
        response_for(RemoteToServer::Data(id, Box::new(bytes))).response == Some(
            Response::Data(Data { id, data: bytes }),
        ),
        response_for(RemoteToServer::UdpData(id, addr, Box::new(bytes))).response == Some(
            Response::UdpData(UdpData { id, destination: Some(addr), data: bytes }),
        ),
        response_for(RemoteToServer::ClosePort(id)).response == Some(Response::ClosePort(id)),
{
}

/// The client's reader turns each response into the message of the same kind with the same
/// fields: a success stays a success and a failure a failure.
pub proof fn lemma_client_reader_keeps_kind(id: u32, addr: TargetAddr, bytes: Vec<u8>)
    ensures
        client_message_for(Response::TcpConnectSuccess(TcpConnectSuccess { id, bind_addr: Some(addr) }))
            == Some(ClientToSocks5Msg::TcpConnectSuccess(id, addr)),
        client_message_for(Response::TcpConnectFailed(id)) == Some(
            ClientToSocks5Msg::TcpConnectFailed(id),
        ),
        client_message_for(Response::UdpAssociateSuccess(id)) == Some(
            ClientToSocks5Msg::UdpAssociateSuccess(id),
        ),
        client_message_for(Response::UdpAssociateFailed(id)) == Some(
            ClientToSocks5Msg::UdpAssociateFailed(id),
        ),
        client_message_for(Response::Data(Data { id, data: bytes })) == Some(
            ClientToSocks5Msg::Data(id, Box::new(bytes)),
        ),
        client_message_for(Response::UdpData(UdpData { id, destination: Some(addr), data: bytes }))
            == Some(ClientToSocks5Msg::UdpData(id, addr, Box::new(bytes))),
        client_message_for(Response::ClosePort(id)) == Some(ClientToSocks5Msg::ClosePort(id)),
{
}

/// The client's writer delivers each message of the server to the port the message names,
/// as the SOCKS5 message of the same kind with the same fields: a connect success stays a
/// success with its bound address, a failure a failure.
pub proof fn lemma_deliveries_keep_kind(id: u32, addr: TargetAddr, bytes: Vec<u8>)
    ensures
        socks_message_for(ClientToSocks5Msg::TcpConnectSuccess(id, addr)) == Some(
            (id, SocksMsg::TcpConnectSuccess(id, addr)),
        ),
        socks_message_for(ClientToSocks5Msg::TcpConnectFailed(id)) == Some(
            (id, SocksMsg::TcpConnectFailed(id)),
        ),
        socks_message_for(ClientToSocks5Msg::UdpAssociateSuccess(id)) == Some(
            (id, SocksMsg::UdpAssociateSuccess(id)),
        ),
        socks_message_for(ClientToSocks5Msg::UdpAssociateFailed(id)) == Some(
            (id, SocksMsg::UdpAssociateFailed(id)),
        ),
        socks_message_for(ClientToSocks5Msg::Data(id, Box::new(bytes))) == Some(
            (id, SocksMsg::Data(Box::new(bytes))),
        ),
        socks_message_for(ClientToSocks5Msg::UdpData(id, addr, Box::new(bytes))) == Some(
            (id, SocksMsg::UdpData(addr, Box::new(bytes))),
        ),
        socks_message_for(ClientToSocks5Msg::ClosePort(id)) == Some((id, SocksMsg::ClosePort(id))),
        socks_message_for(ClientToSocks5Msg::Heartbeat) is None,
{
}

/// A connect that the remote task reports as done with the IP endpoint `bound` reaches the
/// SOCKS5 connection of the same port as a success with that endpoint, which it replies to
/// its client; a reported failure reaches it as no endpoint, a general failure.
pub proof fn lemma_connect_outcome_reaches_socks(id: u32, bound: SocketAddr)
    ensures
        ({
            let res = response_for(RemoteToServer::TcpConnectSuccess(id, TargetAddr::Ip(bound)));
            let msg = client_message_for(res.response->0)->0;
            let delivered = socks_message_for(msg)->0;
            delivered.0 == id && connect_bind_addr(Some(delivered.1)) == Some(bound)
        }),
        ({
            let res = response_for(RemoteToServer::TcpConnectFailed(id));
            let msg = client_message_for(res.response->0)->0;
            let delivered = socks_message_for(msg)->0;
            delivered.0 == id && connect_bind_addr(Some(delivered.1)) is None
        }),
{
}

} // verus!
