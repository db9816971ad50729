//! The server's writer: what it does with each message from the server's reader and from
//! the remote tasks, and how it keeps its map of ports.
use vstd::prelude::*;

use crate::util::channel_helper::ChannelSender;

use crate::communicate::server_and_remote::{RemoteMsg, RemoteToServer, ServerMsg, ServerToRemote};
use crate::pb::command_response::Response;
use crate::pb::{CommandResponse, Data, TcpConnectSuccess, UdpData, HEARTBEAT_PINGPONG};
use crate::service::tunnel::{TunnelReader, TunnelWriter};
use crate::service::ServerPortMap;
use crate::util::channel_helper::{bounded_channel, clone_sender, SubSenders};
use crate::util::target_addr::TargetAddr;

verus! {

broadcast use vstd::std_specs::hash::group_hash_axioms;

/// How many messages a remote task's channel holds.
pub const REMOTE_CHANNEL_BUFFER: usize = 1000;

/// What the server's writer does for a message of its reader.
pub enum ServerAction {
    /// Send this response to the client.
    Respond(CommandResponse),
    /// Give this message to the remote task of the port with this id, if the map still has it.
    ToRemote(u32, RemoteMsg),
    /// Give this message to this sender, of a port that was just removed from the map.
    ToClosedRemote(ChannelSender<RemoteMsg>, RemoteMsg),
    /// Start a remote TCP task that connects to the address, with these port halves.
    SpawnTcp(TargetAddr, TunnelReader<ServerMsg, RemoteMsg>, TunnelWriter<ServerMsg>),
    /// Start a remote UDP task with these port halves.
    SpawnUdp(TunnelReader<ServerMsg, RemoteMsg>, TunnelWriter<ServerMsg>),
}

/// The halves of a new port: both have its id and report on the channel of the bus's
/// current sub-sender, and the reader receives from the channel of `port_tx`, the sender
/// that the port map holds for the port.
pub open spec fn port_halves(
    id: u32,
    reader: TunnelReader<ServerMsg, RemoteMsg>,
    writer: TunnelWriter<ServerMsg>,
    bus: SubSenders<ServerMsg>,
    port_tx: ChannelSender<RemoteMsg>,
) -> bool {
    &&& reader.id == id
    &&& writer.id == id
    &&& reader.rx matches Some(rx) && rx.chan() == port_tx.chan()
    &&& reader.tx.chan() == bus.senders()[bus.last()].chan()
    &&& writer.tx.chan() == bus.senders()[bus.last()].chan()
}

/// Handles a message of the server's reader. A heartbeat is answered; a close goes to its
/// port's task and the port leaves the map; a connect or an association adds a port to
/// the map and starts a task for it, on the next sub-sender of the bus; data goes to its
/// port's task.
pub fn process_server_to_remote(
    msg: ServerToRemote,
    server_port_map: &mut ServerPortMap,
    subsenders: &mut SubSenders<ServerMsg>,
) -> (r: ServerAction)
    requires
        old(subsenders).wf(),
    ensures
        final(subsenders).wf(),
        final(subsenders).senders() == old(subsenders).senders(),
        match msg {
            ServerToRemote::Heartbeat => final(server_port_map)@ == old(server_port_map)@
                && *final(subsenders) == *old(subsenders) && r == ServerAction::Respond(
                CommandResponse { response: Some(Response::Heartbeat(HEARTBEAT_PINGPONG)) },
            ),
            ServerToRemote::ClosePort(id) => final(server_port_map)@ == old(server_port_map)@.remove(id)
                && *final(subsenders) == *old(subsenders) && if old(server_port_map)@.contains_key(id) {
                r matches ServerAction::ToClosedRemote(tx, m) && tx == old(server_port_map)@[id] && m
                    == RemoteMsg::ClosePort(id)
            } else {
                r == ServerAction::ToRemote(id, RemoteMsg::ClosePort(id))
            },
            ServerToRemote::TcpConnect(id, addr) => final(server_port_map)@.dom()
                == old(server_port_map)@.dom().insert(id) && (forall|k: u32|
                k != id && old(server_port_map)@.contains_key(k) ==> final(server_port_map)@[k]
                    == old(server_port_map)@[k]) && final(subsenders).last() == (
            old(subsenders).last() + 1) % (old(subsenders).senders().len() as int) && (r matches ServerAction::SpawnTcp(
                a,
                reader,
                writer,
            ) && a == addr && port_halves(id, reader, writer, *final(subsenders), final(server_port_map)@[id])
                && final(server_port_map)@[id].buffer() == REMOTE_CHANNEL_BUFFER),
            ServerToRemote::UdpAssociate(id) => final(server_port_map)@.dom()
                == old(server_port_map)@.dom().insert(id) && (forall|k: u32|
                k != id && old(server_port_map)@.contains_key(k) ==> final(server_port_map)@[k]
                    == old(server_port_map)@[k]) && final(subsenders).last() == (
            old(subsenders).last() + 1) % (old(subsenders).senders().len() as int) && (r matches ServerAction::SpawnUdp(
                reader,
                writer,
            ) && port_halves(id, reader, writer, *final(subsenders), final(server_port_map)@[id])
                && final(server_port_map)@[id].buffer() == REMOTE_CHANNEL_BUFFER),
            ServerToRemote::Data(id, data) => final(server_port_map)@ == old(server_port_map)@
                && *final(subsenders) == *old(subsenders) && r == ServerAction::ToRemote(
                id,
                RemoteMsg::Data(data),
            ),
            ServerToRemote::UdpData(id, addr, data) => final(server_port_map)@ == old(
                server_port_map,
            )@ && *final(subsenders) == *old(subsenders) && r == ServerAction::ToRemote(
                id,
                RemoteMsg::UdpData(addr, data),
            ),
        },
{
    match msg {
        ServerToRemote::Heartbeat => ServerAction::Respond(CommandResponse::new_heartbeat()),
        ServerToRemote::ClosePort(id) => match server_port_map.remove(&id) {
            Some(tx) => ServerAction::ToClosedRemote(tx, RemoteMsg::ClosePort(id)),
            None => ServerAction::ToRemote(id, RemoteMsg::ClosePort(id)),
        },
        ServerToRemote::TcpConnect(id, target_addr) => {
            let (tx, rx) = bounded_channel(REMOTE_CHANNEL_BUFFER);
            server_port_map.insert(id, tx);
            let sender = subsenders.get_one_sender();
            let reader_remote = TunnelReader { id, tx: clone_sender(&sender), rx: Some(rx) };
            let writer_remote = TunnelWriter { id, tx: sender };
            ServerAction::SpawnTcp(target_addr, reader_remote, writer_remote)
        },
        ServerToRemote::UdpAssociate(id) => {
            let (tx, rx) = bounded_channel(REMOTE_CHANNEL_BUFFER);
            server_port_map.insert(id, tx);
            let sender = subsenders.get_one_sender();
            let read_port = TunnelReader { id, tx: clone_sender(&sender), rx: Some(rx) };
            let write_port = TunnelWriter { id, tx: sender };
            ServerAction::SpawnUdp(read_port, write_port)
        },
        ServerToRemote::Data(id, data) => ServerAction::ToRemote(id, RemoteMsg::Data(data)),
        ServerToRemote::UdpData(id, target_addr, data) => ServerAction::ToRemote(
            id,
            RemoteMsg::UdpData(target_addr, data),
        ),
    }
}

/// The response to the client that a report of a remote task becomes.
pub open spec fn response_for(msg: RemoteToServer) -> CommandResponse {
    match msg {
        RemoteToServer::TcpConnectSuccess(id, bind_addr) => CommandResponse {
            response: Some(Response::TcpConnectSuccess(TcpConnectSuccess { id, bind_addr: Some(bind_addr) })),
        },
        RemoteToServer::TcpConnectFailed(id) => CommandResponse {
            response: Some(Response::TcpConnectFailed(id)),
        },
        RemoteToServer::UdpAssociateSuccess(id) => CommandResponse {
            response: Some(Response::UdpAssociateSuccess(id)),
        },
        RemoteToServer::UdpAssociateFailed(id) => CommandResponse {
            response: Some(Response::UdpAssociateFailed(id)),
        },
        RemoteToServer::Data(id, data) => CommandResponse {
            response: Some(Response::Data(Data { id, data: *data })),
        },
        RemoteToServer::UdpData(id, addr, data) => CommandResponse {
            response: Some(Response::UdpData(UdpData { id, destination: Some(addr), data: *data })),
        },
        RemoteToServer::ClosePort(id) => CommandResponse { response: Some(Response::ClosePort(id)) },
    }
}

/// Handles a report of a remote task: returns the response to send to the client; a
/// port's close also removes the port from the map.
pub fn process_remote_to_server(msg: RemoteToServer, server_port_map: &mut ServerPortMap) -> (r:
    CommandResponse)
    ensures
        r == response_for(msg),
        msg matches RemoteToServer::ClosePort(id) ==> final(server_port_map)@ == old(
            server_port_map,
        )@.remove(id),
        !(msg is ClosePort) ==> final(server_port_map)@ == old(server_port_map)@,
        msg matches RemoteToServer::TcpConnectSuccess(id, a) ==> r.response == Some(
            Response::TcpConnectSuccess(TcpConnectSuccess { id, bind_addr: Some(a) }),
        ),
        msg matches RemoteToServer::TcpConnectFailed(id) ==> r.response == Some(
            Response::TcpConnectFailed(id),
        ),
        msg matches RemoteToServer::UdpAssociateSuccess(id) ==> r.response == Some(
            Response::UdpAssociateSuccess(id),
        ),
        msg matches RemoteToServer::UdpAssociateFailed(id) ==> r.response == Some(
            Response::UdpAssociateFailed(id),
        ),
        msg matches RemoteToServer::Data(id, d) ==> r.response == Some(
            Response::Data(Data { id, data: *d }),
        ),
        msg matches RemoteToServer::UdpData(id, a, d) ==> r.response == Some(
            Response::UdpData(UdpData { id, destination: Some(a), data: *d }),
        ),
        msg matches RemoteToServer::ClosePort(id) ==> r.response == Some(Response::ClosePort(id)),
{
    match msg {
        RemoteToServer::TcpConnectSuccess(id, bind_addr) => CommandResponse::new_tcp_connect_success(
            id,
            bind_addr,
        ),
        RemoteToServer::TcpConnectFailed(id) => CommandResponse::new_tcp_connect_failed(id),
        RemoteToServer::UdpAssociateSuccess(id) => CommandResponse::new_udp_associate_success(id),
        RemoteToServer::UdpAssociateFailed(id) => CommandResponse::new_udp_associate_failed(id),
        RemoteToServer::Data(id, data) => CommandResponse::new_data(id, *data),
        RemoteToServer::UdpData(id, target_addr, data) => CommandResponse::new_udp_data(
            id,
            target_addr,
            *data,
        ),
        RemoteToServer::ClosePort(id) => {
            let r = CommandResponse::new_close_port(id);
            let _ = server_port_map.remove(&id);
            r
        },
    }
}

} // verus!
