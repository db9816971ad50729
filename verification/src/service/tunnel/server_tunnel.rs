//! The decisions of the server's tasks that talk to remotes on behalf of one port.
use vstd::prelude::*;

use crate::communicate::server_and_remote::{RemoteMsg, RemoteToServer};
use crate::util::target_addr::{AddrModel, SocketAddr, TargetAddr};

verus! {

/// What the remote TCP task reports once it tried to connect: success with the address
/// its socket is bound to, or failure followed by the port's close.
pub open spec fn spec_tcp_connect_report(id: u32, bound: Option<SocketAddr>) -> Seq<RemoteToServer> {
    match bound {
        Some(addr) => seq![RemoteToServer::TcpConnectSuccess(id, TargetAddr::Ip(addr))],
        None => seq![RemoteToServer::TcpConnectFailed(id), RemoteToServer::ClosePort(id)],
    }
}

pub fn tcp_connect_report(id: u32, bound: Option<SocketAddr>) -> (r: Vec<RemoteToServer>)
    ensures
        r@ == spec_tcp_connect_report(id, bound),
{
    match bound {
        Some(addr) => {
            let r = vec![RemoteToServer::TcpConnectSuccess(id, TargetAddr::Ip(addr))];
            assert(r@ =~= spec_tcp_connect_report(id, bound));
            r
        },
        None => {
            let r = vec![RemoteToServer::TcpConnectFailed(id), RemoteToServer::ClosePort(id)];
            assert(r@ =~= spec_tcp_connect_report(id, bound));
            r
        },
    }
}

/// What the remote UDP task reports once it tried to bind its socket.
pub open spec fn spec_udp_bind_report(id: u32, bound: bool) -> Seq<RemoteToServer> {
    if bound {
        seq![RemoteToServer::UdpAssociateSuccess(id)]
    } else {
        seq![RemoteToServer::UdpAssociateFailed(id), RemoteToServer::ClosePort(id)]
    }
}

pub fn udp_bind_report(id: u32, bound: bool) -> (r: Vec<RemoteToServer>)
    ensures
        r@ == spec_udp_bind_report(id, bound),
{
    if bound {
        let r = vec![RemoteToServer::UdpAssociateSuccess(id)];
        assert(r@ =~= spec_udp_bind_report(id, bound));
        r
    } else {
        let r = vec![RemoteToServer::UdpAssociateFailed(id), RemoteToServer::ClosePort(id)];
        assert(r@ =~= spec_udp_bind_report(id, bound));
        r
    }
}

/// The bytes the remote TCP task writes for a message of its port, or `None` when it
/// stops (the port closed, UDP data arrived, or the channel ended).
pub fn remote_tcp_write_payload(msg: Option<RemoteMsg>) -> (r: Option<Box<Vec<u8>>>)
    ensures
        match msg {
            Some(RemoteMsg::Data(data)) => r == Some(data),
            _ => r is None,
        },
{
    match msg {
        Some(RemoteMsg::Data(data)) => Some(data),
        _ => None,
    }
}

/// The destination and bytes of a datagram the remote UDP task sends, or `None` when it
/// stops (the port closed, TCP data arrived, or the channel ended).
pub fn remote_udp_write_target(msg: Option<RemoteMsg>) -> (r: Option<(TargetAddr, Box<Vec<u8>>)>)
    ensures
        match msg {
            Some(RemoteMsg::UdpData(a, data)) => r == Some((a, data)),
            _ => r is None,
        },
{
    match msg {
        Some(RemoteMsg::UdpData(a, data)) => Some((a, data)),
        _ => None,
    }
}

/// The IPv6 form of an endpoint, so that the server's IPv6 socket reaches IPv4 hosts too:
/// an IPv4 address becomes `::ffff:a.b.c.d`; IPv6 stays.
pub open spec fn ipv6_mapped(m: AddrModel) -> AddrModel {
    match m {
        AddrModel::Ip4(ip, port) => AddrModel::Ip6(
            seq![0u8, 0u8, 0u8, 0u8, 0u8, 0u8, 0u8, 0u8, 0u8, 0u8, 0xffu8, 0xffu8] + ip,
            port,
        ),
        _ => m,
    }
}

pub fn to_ipv6_mapped(addr: SocketAddr) -> (r: SocketAddr)
    ensures
        r@ == ipv6_mapped(addr@),
{
    match addr {
        SocketAddr::V4(ip, port) => {
            let v6: [u8; 16] = [0, 0, 0, 0, 0, 0, 0, 0, 0, 0, 0xff, 0xff, ip[0], ip[1], ip[2], ip[3]];
            assert(v6@ =~= seq![0u8, 0u8, 0u8, 0u8, 0u8, 0u8, 0u8, 0u8, 0u8, 0u8, 0xffu8, 0xffu8] + ip@);
            SocketAddr::V6(v6, port)
        },
        SocketAddr::V6(ip, port) => SocketAddr::V6(ip, port),
    }
}

} // verus!
