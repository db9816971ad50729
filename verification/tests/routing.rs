use futures::StreamExt;
use std::collections::HashMap;

use vpn::communicate::server_and_remote::{RemoteMsg, RemoteToServer, ServerToRemote};
use vpn::communicate::socks_and_client::{ClientMsg, ClientToSocks5Msg, Socks5ToClientMsg, SocksMsg};
use vpn::communicate::TunnelPortMsg;
use vpn::error::{ServiceError, VpnError};
use vpn::pb::command_request::Command;
use vpn::pb::command_response::Response;
use vpn::pb::{CommandRequest, CommandResponse, TcpConnectSuccess};
use vpn::service::processor::client_read_process::client_read_dispatch;
use vpn::service::processor::client_write_process::{
    process_client_to_socks5, process_socks5_to_client, SocksDelivery,
};
use vpn::service::processor::server_read_process::server_read_dispatch;
use vpn::service::processor::server_write_process::{
    process_remote_to_server, process_server_to_remote, ServerAction,
};
use vpn::service::tunnel::server_tunnel::{
    remote_tcp_write_payload, remote_udp_write_target, tcp_connect_report, to_ipv6_mapped,
    udp_bind_report,
};
use vpn::service::tunnel::{QuicTunnel, S2nTunnel, TcpTunnel};
use vpn::service::{alive_timeout_exceeded, udp_read_timeout_exceeded, ServerPortMap};
use vpn::tunnel::PortHub;
use vpn::util::channel_helper::{channel_bus, new_channel, ChannelSender};
use vpn::util::client_config::AuthType;
use vpn::util::target_addr::{SocketAddr, TargetAddr};

fn v4(a: u8, port: u16) -> TargetAddr {
    TargetAddr::Ip(SocketAddr::V4([a, a, a, a], port))
}

fn socks_sender() -> ChannelSender<SocksMsg> {
    new_channel(1).0
}

#[test]
fn requests_cross_the_tunnel_unchanged() {
    let mut ports = HashMap::new();
    let req = process_socks5_to_client(Socks5ToClientMsg::TcpConnect(3, v4(1, 80)), &mut ports)
        .unwrap()
        .unwrap();
    match server_read_dispatch(req) {
        Some(ServerToRemote::TcpConnect(3, TargetAddr::Ip(SocketAddr::V4([1, 1, 1, 1], 80)))) => {}
        other => panic!("unexpected {:?}", other),
    }
    let req = process_socks5_to_client(Socks5ToClientMsg::Data(3, Box::new(vec![9, 8])), &mut ports)
        .unwrap()
        .unwrap();
    match server_read_dispatch(req) {
        Some(ServerToRemote::Data(3, d)) => assert_eq!(*d, vec![9, 8]),
        other => panic!("unexpected {:?}", other),
    }
    let req = process_socks5_to_client(Socks5ToClientMsg::UdpAssociate(4), &mut ports).unwrap().unwrap();
    assert!(matches!(server_read_dispatch(req), Some(ServerToRemote::UdpAssociate(4))));
    let req = process_socks5_to_client(
        Socks5ToClientMsg::UdpData(4, v4(2, 53), Box::new(vec![1])),
        &mut ports,
    )
    .unwrap()
    .unwrap();
    assert!(matches!(server_read_dispatch(req), Some(ServerToRemote::UdpData(4, _, _))));
    assert!(ports.is_empty());
}

#[test]
fn client_registers_and_closes_ports() {
    let mut ports = HashMap::new();
    let r = process_socks5_to_client(Socks5ToClientMsg::InitChannel(1, socks_sender()), &mut ports);
    assert!(matches!(r, Ok(None)));
    assert!(ports.contains_key(&1));
    let r = process_socks5_to_client(Socks5ToClientMsg::InitChannel(1, socks_sender()), &mut ports);
    assert!(matches!(r, Err(VpnError::ServiceError(ServiceError::ChannelIdExists(1)))));
    let r = process_socks5_to_client(Socks5ToClientMsg::ClosePort(1), &mut ports).unwrap().unwrap();
    assert!(matches!(r.command, Some(Command::ClosePort(1))));
    assert!(ports.is_empty());
}

#[test]
fn client_delivers_messages_of_the_server() {
    let mut ports = HashMap::new();
    ports.insert(5u32, socks_sender());
    assert!(matches!(process_client_to_socks5(ClientToSocks5Msg::Heartbeat, &mut ports), SocksDelivery::Nothing));
    match process_client_to_socks5(ClientToSocks5Msg::Data(5, Box::new(vec![1])), &mut ports) {
        SocksDelivery::ToPort(5, SocksMsg::Data(d)) => assert_eq!(*d, vec![1]),
        _ => panic!("expected delivery to port 5"),
    }
    assert!(matches!(
        process_client_to_socks5(ClientToSocks5Msg::TcpConnectFailed(5), &mut ports),
        SocksDelivery::ToPort(5, SocksMsg::TcpConnectFailed(5))
    ));
    assert!(matches!(
        process_client_to_socks5(ClientToSocks5Msg::ClosePort(5), &mut ports),
        SocksDelivery::ToClosedPort(_, SocksMsg::ClosePort(5))
    ));
    assert!(ports.is_empty());
    assert!(matches!(process_client_to_socks5(ClientToSocks5Msg::ClosePort(5), &mut ports), SocksDelivery::Nothing));
}

#[test]
fn responses_cross_the_tunnel_unchanged() {
    let mut ports: ServerPortMap = HashMap::new();
    let res = process_remote_to_server(RemoteToServer::TcpConnectSuccess(2, v4(3, 443)), &mut ports);
    assert!(matches!(
        client_read_dispatch(res),
        Ok(Some(ClientToSocks5Msg::TcpConnectSuccess(2, TargetAddr::Ip(SocketAddr::V4([3, 3, 3, 3], 443)))))
    ));
    let res = process_remote_to_server(RemoteToServer::UdpData(2, v4(4, 53), Box::new(vec![7])), &mut ports);
    match client_read_dispatch(res) {
        Ok(Some(ClientToSocks5Msg::UdpData(2, _, d))) => assert_eq!(*d, vec![7]),
        other => panic!("unexpected {:?}", other),
    }
    let res = process_remote_to_server(RemoteToServer::UdpAssociateFailed(6), &mut ports);
    assert!(matches!(client_read_dispatch(res), Ok(Some(ClientToSocks5Msg::UdpAssociateFailed(6)))));
}

#[test]
fn client_reader_edge_cases() {
    let res = CommandResponse { response: None };
    match client_read_dispatch(res) {
        Err(VpnError::ServiceError(ServiceError::UnknownCommand(m))) => assert_eq!(m, "Unknown response"),
        other => panic!("unexpected {:?}", other),
    }
    let res = CommandResponse {
        response: Some(Response::TcpConnectSuccess(TcpConnectSuccess { id: 1, bind_addr: None })),
    };
    assert!(matches!(client_read_dispatch(res), Ok(None)));
    let res = CommandResponse::new_udp_data(8, v4(1, 1), vec![]);
    assert!(matches!(client_read_dispatch(res), Ok(Some(ClientToSocks5Msg::UdpData(8, _, _)))));
    let res = CommandResponse::new_heartbeat();
    assert!(matches!(client_read_dispatch(res), Ok(Some(ClientToSocks5Msg::Heartbeat))));
}

#[test]
fn server_reader_drops_requests_without_content() {
    assert!(server_read_dispatch(CommandRequest { command: None }).is_none());
    let req = CommandRequest::new_heartbeat();
    assert!(matches!(server_read_dispatch(req), Some(ServerToRemote::Heartbeat)));
    let req = CommandRequest::new_close_port(9);
    assert!(matches!(server_read_dispatch(req), Some(ServerToRemote::ClosePort(9))));
}

#[test]
fn server_writer_opens_routes_and_closes_ports() {
    let (_, mut subsenders, _receivers) = channel_bus::<vpn::communicate::server_and_remote::ServerMsg>(3, 10);
    let mut ports: ServerPortMap = HashMap::new();
    match process_server_to_remote(ServerToRemote::Heartbeat, &mut ports, &mut subsenders) {
        ServerAction::Respond(r) => assert!(matches!(r.response, Some(Response::Heartbeat(0)))),
        _ => panic!("heartbeat is answered"),
    }
    match process_server_to_remote(ServerToRemote::TcpConnect(7, v4(9, 22)), &mut ports, &mut subsenders) {
        ServerAction::SpawnTcp(TargetAddr::Ip(SocketAddr::V4([9, 9, 9, 9], 22)), reader, writer) => {
            assert_eq!(reader.get_id(), 7);
            assert_eq!(writer.get_id(), 7);
            assert!(reader.rx.is_some());
        }
        _ => panic!("connect spawns a task"),
    }
    assert!(ports.contains_key(&7));
    match process_server_to_remote(ServerToRemote::Data(7, Box::new(vec![5])), &mut ports, &mut subsenders) {
        ServerAction::ToRemote(7, RemoteMsg::Data(d)) => assert_eq!(*d, vec![5]),
        _ => panic!("data goes to the port"),
    }
    assert!(matches!(
        process_server_to_remote(ServerToRemote::ClosePort(7), &mut ports, &mut subsenders),
        ServerAction::ToClosedRemote(_, RemoteMsg::ClosePort(7))
    ));
    assert!(ports.is_empty());
    assert!(matches!(
        process_server_to_remote(ServerToRemote::ClosePort(7), &mut ports, &mut subsenders),
        ServerAction::ToRemote(7, RemoteMsg::ClosePort(7))
    ));
    assert!(matches!(
        process_server_to_remote(ServerToRemote::UdpAssociate(8), &mut ports, &mut subsenders),
        ServerAction::SpawnUdp(_, _)
    ));
    assert!(ports.contains_key(&8));
    let res = process_remote_to_server(RemoteToServer::ClosePort(8), &mut ports);
    assert!(matches!(res.response, Some(Response::ClosePort(8))));
    assert!(ports.is_empty());
}

#[test]
fn sub_senders_are_used_in_turn() {
    let (_, mut subsenders, _receivers) = channel_bus::<u8>(2, 4);
    assert_eq!(subsenders.len(), 2);
    for _ in 0..5 {
        let _ = subsenders.get_one_sender();
    }
    assert_eq!(subsenders.len(), 2);
}

#[test]
fn tunnels_hand_out_ports_in_order() {
    for (mut tunnel, _rx, _tx) in [QuicTunnel::generate(), S2nTunnel::generate(), TcpTunnel::generate()] {
        assert_eq!(tunnel.connect_id(), 0);
        let (init, writer, reader) = tunnel.generate();
        assert!(matches!(init, ClientMsg::Socks5ToClient(Socks5ToClientMsg::InitChannel(0, _))));
        assert_eq!(writer.get_id(), 0);
        assert_eq!(reader.get_id(), 0);
        let (init, _, _) = tunnel.generate();
        assert!(matches!(init, ClientMsg::Socks5ToClient(Socks5ToClientMsg::InitChannel(1, _))));
        assert_eq!(tunnel.connect_id(), 2);
    }
}

#[test]
fn remote_task_reports() {
    let r = tcp_connect_report(3, Some(SocketAddr::V4([1, 2, 3, 4], 5)));
    assert_eq!(r.len(), 1);
    assert!(matches!(r[0], RemoteToServer::TcpConnectSuccess(3, TargetAddr::Ip(SocketAddr::V4([1, 2, 3, 4], 5)))));
    let r = tcp_connect_report(3, None);
    assert!(matches!(r[..], [RemoteToServer::TcpConnectFailed(3), RemoteToServer::ClosePort(3)]));
    assert!(matches!(udp_bind_report(4, true)[..], [RemoteToServer::UdpAssociateSuccess(4)]));
    assert!(matches!(
        udp_bind_report(4, false)[..],
        [RemoteToServer::UdpAssociateFailed(4), RemoteToServer::ClosePort(4)]
    ));
}

#[test]
fn remote_task_writes() {
    assert_eq!(*remote_tcp_write_payload(Some(RemoteMsg::Data(Box::new(vec![1])))).unwrap(), vec![1]);
    assert!(remote_tcp_write_payload(Some(RemoteMsg::ClosePort(1))).is_none());
    assert!(remote_tcp_write_payload(None).is_none());
    let (a, d) = remote_udp_write_target(Some(RemoteMsg::UdpData(v4(6, 6), Box::new(vec![2])))).unwrap();
    assert!(matches!(a, TargetAddr::Ip(SocketAddr::V4([6, 6, 6, 6], 6))));
    assert_eq!(*d, vec![2]);
    assert!(remote_udp_write_target(Some(RemoteMsg::Data(Box::new(vec![])))).is_none());
}

#[test]
fn ipv4_is_mapped_into_ipv6() {
    match to_ipv6_mapped(SocketAddr::V4([192, 0, 2, 1], 53)) {
        SocketAddr::V6(ip, 53) => {
            assert_eq!(ip, [0, 0, 0, 0, 0, 0, 0, 0, 0, 0, 0xff, 0xff, 192, 0, 2, 1])
        }
        other => panic!("unexpected {:?}", other),
    }
    assert!(matches!(to_ipv6_mapped(SocketAddr::V6([3; 16], 1)), SocketAddr::V6([3, 3, 3, 3, 3, 3, 3, 3, 3, 3, 3, 3, 3, 3, 3, 3], 1)));
}

#[test]
fn timeouts() {
    assert!(!alive_timeout_exceeded(60_000_000_000));
    assert!(alive_timeout_exceeded(60_000_000_001));
    assert!(!udp_read_timeout_exceeded(300_000_000_000));
    assert!(udp_read_timeout_exceeded(300_000_000_001));
}

#[test]
fn auth_types_and_codes() {
    assert_eq!(AuthType::NoAuth.as_u8(), 0);
    assert!(matches!(AuthType::from_u8(0), Some(AuthType::NoAuth)));
    match AuthType::from_u8(2) {
        Some(AuthType::Auth(info)) => {
            assert_eq!(info.username, "admin");
            assert_eq!(info.password, "password");
            assert_eq!(AuthType::Auth(info).as_u8(), 2);
        }
        other => panic!("unexpected {:?}", other),
    }
    assert!(AuthType::from_u8(1).is_none());
    assert_eq!(AuthType::NoAuth.to_display_string(), "AuthType::NoAuth");
}

#[test]
fn port_hub_keeps_a_port_until_both_halves_drop() {
    let mut hub = PortHub::new(4);
    assert_eq!(hub.get_id(), 4);
    hub.add_port(1, new_channel::<TunnelPortMsg>(1).0);
    assert!(hub.client_shutdown(1));
    hub.update_address(1, "example.com:80".to_owned());
    hub.drop_port_half(1);
    assert!(hub.client_shutdown(1));
    hub.drop_port_half(1);
    assert!(!hub.client_shutdown(1));
    hub.drop_port_half(1);
    assert!(!hub.client_shutdown(1));
}

#[test]
fn port_hub_routes_and_closes() {
    let mut hub = PortHub::new(0);
    hub.add_port(2, new_channel::<TunnelPortMsg>(1).0);
    assert!(matches!(hub.connect_ok(2, vec![1]), Some((_, TunnelPortMsg::ConnectOk(_)))));
    assert!(matches!(hub.server_shutdown(2), Some((_, TunnelPortMsg::ShutdownWrite))));
    assert!(matches!(hub.server_send_data(2, vec![3]), Some((_, TunnelPortMsg::Data(_)))));
    assert!(hub.connect_ok(3, vec![]).is_none());
    hub.send_failed(2);
    assert!(hub.server_shutdown(2).is_none());
    hub.add_port(5, new_channel::<TunnelPortMsg>(1).0);
    hub.client_close_port(5);
    assert!(!hub.client_shutdown(5));
    hub.add_port(6, new_channel::<TunnelPortMsg>(1).0);
    hub.server_close_port(6);
    assert!(!hub.client_shutdown(6));
    hub.add_port(7, new_channel::<TunnelPortMsg>(1).0);
    hub.clear_ports();
    assert!(!hub.client_shutdown(7));
}

#[test]
fn new_server_port_is_wired_to_its_task_and_the_bus() {
    let (_, mut subsenders, mut receivers) =
        channel_bus::<vpn::communicate::server_and_remote::ServerMsg>(2, 10);
    let mut ports: ServerPortMap = HashMap::new();
    match process_server_to_remote(ServerToRemote::UdpAssociate(3), &mut ports, &mut subsenders) {
        ServerAction::SpawnUdp(mut reader, mut writer) => {
            ports.get_mut(&3).unwrap().sender().try_send(RemoteMsg::ClosePort(3)).unwrap();
            let got = reader.rx.as_mut().unwrap().receiver().try_next().unwrap();
            assert!(matches!(got, Some(RemoteMsg::ClosePort(3))));
            writer.tx.sender().try_send(RemoteToServer::UdpAssociateSuccess(3).into()).unwrap();
            let got = futures::executor::block_on(receivers.stream().next());
            assert!(matches!(
                got,
                Some(vpn::communicate::server_and_remote::ServerMsg::RemoteToServer(
                    RemoteToServer::UdpAssociateSuccess(3)
                ))
            ));
        }
        _ => panic!("an association spawns a task"),
    }
}

#[test]
fn client_port_registration_reaches_its_reader() {
    let (mut tunnel, _rx, _tx) = TcpTunnel::generate();
    let (init, _writer, mut reader) = tunnel.generate();
    match init {
        ClientMsg::Socks5ToClient(Socks5ToClientMsg::InitChannel(0, mut tx)) => {
            tx.sender().try_send(SocksMsg::ClosePort(0)).unwrap();
            let got = reader.rx.as_mut().unwrap().receiver().try_next().unwrap();
            assert!(matches!(got, Some(SocksMsg::ClosePort(0))));
        }
        _ => panic!("the registration carries port 0"),
    }
}

#[test]
fn bus_receivers_merge_the_main_and_every_sub_channel() {
    let (mut main, mut subsenders, mut receivers) = channel_bus::<u8>(3, 4);
    main.sender().try_send(10).unwrap();
    for i in 0..3u8 {
        subsenders.get_one_sender().sender().try_send(i).unwrap();
    }
    let mut got = Vec::new();
    for _ in 0..4 {
        got.push(futures::executor::block_on(receivers.stream().next()).unwrap());
    }
    got.sort();
    assert_eq!(got, vec![0, 1, 2, 10]);
}
