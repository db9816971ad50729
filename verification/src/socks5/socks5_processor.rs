//! The decisions of a SOCKS5 connection of the local server once the handshake is done:
//! which port it uses, what it answers the client, and what it does with each datagram.
use vstd::prelude::*;
use vstd::string::StringExecFns;

use crate::communicate::socks_and_client::SocksMsg;
use crate::error::{ServiceError, VpnError};
use crate::socks5::command::consts::{SOCKS5_REPLY_GENERAL_FAILURE, SOCKS5_REPLY_SUCCEEDED};
use crate::socks5::socks5_stream::{new_reply, reply_bytes};
use crate::socks5::{new_udp_header, parse_udp_request, spec_parse_udp_request, udp_header_bytes};
use crate::util::bytes::{copy_range, push_all};
use crate::util::target_addr::{addr_encodable, AddrModel, SocketAddr, TargetAddr};

verus! {

/// The decimal digits of a number, as `Display` writes them.
pub open spec fn decimal(n: nat) -> Seq<char>
    decreases n,
{
    if n < 10 {
        seq![digit_char(n)]
    } else {
        decimal(n / 10).push(digit_char(n % 10))
    }
}

pub open spec fn digit_char(d: nat) -> char {
    if d == 0 { '0' }
    else if d == 1 { '1' }
    else if d == 2 { '2' }
    else if d == 3 { '3' }
    else if d == 4 { '4' }
    else if d == 5 { '5' }
    else if d == 6 { '6' }
    else if d == 7 { '7' }
    else if d == 8 { '8' }
    else { '9' }
}

/// The text of one decimal digit.
fn digit_str(d: u32) -> (r: &'static str)
    requires
        d < 10,
    ensures
        r@ == seq![digit_char(d as nat)],
{
    if d == 0 {
        proof { reveal_strlit("0"); }
        "0"
    } else if d == 1 {
        proof { reveal_strlit("1"); }
        "1"
    } else if d == 2 {
        proof { reveal_strlit("2"); }
        "2"
    } else if d == 3 {
        proof { reveal_strlit("3"); }
        "3"
    } else if d == 4 {
        proof { reveal_strlit("4"); }
        "4"
    } else if d == 5 {
        proof { reveal_strlit("5"); }
        "5"
    } else if d == 6 {
        proof { reveal_strlit("6"); }
        "6"
    } else if d == 7 {
        proof { reveal_strlit("7"); }
        "7"
    } else if d == 8 {
        proof { reveal_strlit("8"); }
        "8"
    } else {
        proof { reveal_strlit("9"); }
        "9"
    }
}

/// Appends the decimal digits of `n`.
fn push_decimal(s: &mut String, n: u32)
    ensures
        final(s)@ == old(s)@ + decimal(n as nat),
    decreases n,
{
    if n < 10 {
        s.append(digit_str(n));
    } else {
        push_decimal(s, n / 10);
        s.append(digit_str(n % 10));
        assert(decimal(n as nat) == decimal((n / 10) as nat).push(digit_char((n % 10) as nat)));
    }
}

/// The message of a mismatch of ids: the two decimal numbers around ` != `.
fn id_mismatch_message(a: u32, b: u32) -> (m: String)
    ensures
        m@ == decimal(a as nat) + " != "@ + decimal(b as nat),
{
    let mut m = String::new();
    push_decimal(&mut m, a);
    m.append(" != ");
    push_decimal(&mut m, b);
    m
}

/// The two halves of a port must carry the same id; returns it.
pub fn check_port_ids(write_id: u32, read_id: u32) -> (r: Result<u32, VpnError>)
    ensures
        write_id == read_id ==> r == Ok::<u32, VpnError>(write_id),
        write_id != read_id ==> (r matches Err(
            VpnError::ServiceError(ServiceError::ChannelIdError(m)),
        ) && m@ == decimal(write_id as nat) + " != "@ + decimal(read_id as nat)),
{
    if write_id != read_id {
        return Err(
            VpnError::ServiceError(ServiceError::ChannelIdError(id_mismatch_message(write_id, read_id))),
        );
    }
    Ok(write_id)
}

/// The address `0.0.0.0:0` that a failure reply carries.
pub open spec fn unspecified_addr() -> AddrModel {
    AddrModel::Ip4(seq![0u8, 0u8, 0u8, 0u8], 0u16)
}

pub fn unspecified_socket_addr() -> (a: SocketAddr)
    ensures
        a@ == unspecified_addr(),
{
    let ip: [u8; 4] = [0, 0, 0, 0];
    assert(ip@ =~= seq![0u8, 0u8, 0u8, 0u8]);
    SocketAddr::V4(ip, 0)
}

/// The IP endpoint a connect response reports, if it is a success with an IP address.
pub open spec fn connect_bind_addr(response: Option<SocksMsg>) -> Option<SocketAddr> {
    match response {
        Some(SocksMsg::TcpConnectSuccess(_, TargetAddr::Ip(addr))) => Some(addr),
        _ => None,
    }
}

/// The reply to a client's CONNECT, once the tunnel answered (or closed, `None`): success
/// with the remote's bound address when the server connected to an IP endpoint, general
/// failure with `0.0.0.0:0` otherwise. The flag says whether the connection goes on.
pub fn tcp_connect_reply(response: Option<SocksMsg>) -> (r: (Vec<u8>, bool))
    ensures
        match connect_bind_addr(response) {
            Some(addr) => r.0@ == reply_bytes(SOCKS5_REPLY_SUCCEEDED, addr@) && r.1,
            None => r.0@ == reply_bytes(SOCKS5_REPLY_GENERAL_FAILURE, unspecified_addr()) && !r.1,
        },
{
    match response {
        Some(SocksMsg::TcpConnectSuccess(_, TargetAddr::Ip(addr))) => (
            new_reply(SOCKS5_REPLY_SUCCEEDED, &addr),
            true,
        ),
        _ => (new_reply(SOCKS5_REPLY_GENERAL_FAILURE, &unspecified_socket_addr()), false),
    }
}

/// The reply to a client's UDP ASSOCIATE, once the tunnel answered: success with the
/// local relay's address, or general failure with `0.0.0.0:0`. The flag says whether the
/// association goes on.
pub fn udp_associate_reply(response: Option<SocksMsg>, relay: &SocketAddr) -> (r: (Vec<u8>, bool))
    ensures
        (response matches Some(SocksMsg::UdpAssociateSuccess(_))) ==> r.0@ == reply_bytes(
            SOCKS5_REPLY_SUCCEEDED,
            relay@,
        ) && r.1,
        !(response matches Some(SocksMsg::UdpAssociateSuccess(_))) ==> r.0@ == reply_bytes(
            SOCKS5_REPLY_GENERAL_FAILURE,
            unspecified_addr(),
        ) && !r.1,
{
    match response {
        Some(SocksMsg::UdpAssociateSuccess(_)) => (new_reply(SOCKS5_REPLY_SUCCEEDED, relay), true),
        _ => (new_reply(SOCKS5_REPLY_GENERAL_FAILURE, &unspecified_socket_addr()), false),
    }
}

/// What to do with a datagram that the SOCKS5 client sent to the relay.
pub enum UdpPacketAction {
    /// It is not a valid request: drop it and wait for the next.
    Skip,
    /// It is a fragment, which is not supported: end the association.
    Stop,
    /// Send the data to the destination.
    Forward(TargetAddr, Vec<u8>),
}

/// Decides on a datagram from the SOCKS5 client (RFC 1928, section 7).
pub fn udp_packet_action(packet: &[u8]) -> (r: UdpPacketAction)
    ensures
        match spec_parse_udp_request(packet@) {
            Err(_) => r is Skip,
            Ok((frag, m, n)) => if frag != 0 {
                r is Stop
            } else {
                r matches UdpPacketAction::Forward(a, data) && a@ == m && data@ == packet@.subrange(
                    n,
                    packet@.len() as int,
                )
            },
        },
{
    match parse_udp_request(packet) {
        Err(_) => UdpPacketAction::Skip,
        Ok((frag, target_addr, data)) => {
            if frag != 0 {
                UdpPacketAction::Stop
            } else {
                let mut payload: Vec<u8> = Vec::new();
                push_all(&mut payload, data);
                UdpPacketAction::Forward(target_addr, payload)
            }
        },
    }
}

/// The datagram to send to the SOCKS5 client for a message of the tunnel, or `None` when
/// the association ends (the message is not UDP data, the port closed, or the source
/// address cannot be written).
pub fn udp_datagram_for(msg: Option<SocksMsg>) -> (r: Option<Vec<u8>>)
    ensures
        match msg {
            Some(SocksMsg::UdpData(a, data)) => if addr_encodable(a@) {
                r matches Some(d) && d@ == udp_header_bytes(a@) + data@
            } else {
                r is None
            },
            _ => r is None,
        },
{
    match msg {
        Some(SocksMsg::UdpData(target_addr, data)) => match new_udp_header(&target_addr) {
            Ok(mut datagram) => {
                push_all(&mut datagram, data.as_slice());
                Some(datagram)
            },
            Err(_) => None,
        },
        _ => None,
    }
}

/// The bytes a SOCKS5 connection writes to its client for a message of the tunnel, or
/// `None` when it stops (the port closed, another kind of message arrived, or the channel
/// ended).
pub fn tcp_payload_for(msg: Option<SocksMsg>) -> (r: Option<Box<Vec<u8>>>)
    ensures
        match msg {
            Some(SocksMsg::Data(data)) => r == Some(data),
            _ => r is None,
        },
{
    match msg {
        Some(SocksMsg::Data(data)) => Some(data),
        _ => None,
    }
}

} // verus!
