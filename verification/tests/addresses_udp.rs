use vpn::communicate::socks_and_client::SocksMsg;
use vpn::error::{AddrError, ServiceError, Socks5Error, Socks5Field, VpnError};
use vpn::socks5::socks5_processor::{
    check_port_ids, tcp_connect_reply, udp_associate_reply, udp_datagram_for, udp_packet_action,
    unspecified_socket_addr, UdpPacketAction,
};
use vpn::socks5::{new_udp_header, parse_udp_request};
use vpn::util::bytes::{copy_range, push_port, read_port};
use vpn::util::target_addr::{read_address, SocketAddr, TargetAddr};

#[test]
fn ipv4_address_is_read() {
    let (a, n) = read_address(&[8, 8, 4, 4, 0, 53, 1], 1).unwrap();
    assert!(matches!(a, TargetAddr::Ip(SocketAddr::V4([8, 8, 4, 4], 53))));
    assert_eq!(n, 6);
}

#[test]
fn address_errors() {
    assert!(matches!(read_address(&[1, 2, 3], 1), Err(AddrError::IPv4Unreadable)));
    assert!(matches!(read_address(&[0; 15], 4), Err(AddrError::IPv6Unreadable)));
    assert!(matches!(read_address(&[0; 17], 4), Err(AddrError::PortNumberUnreadable)));
    assert!(matches!(read_address(&[], 3), Err(AddrError::DomainLenUnreadable)));
    assert!(matches!(read_address(&[4, b'a', b'b'], 3), Err(AddrError::DomainContentUnreadable)));
    assert!(matches!(read_address(&[1, 0xff, 0, 1], 3), Err(AddrError::Utf8)));
    assert!(matches!(read_address(&[1, b'a', 0], 3), Err(AddrError::PortNumberUnreadable)));
    assert!(matches!(read_address(&[1, 2, 3, 4, 5, 6], 2), Err(AddrError::IncorrectAddressType)));
}

#[test]
fn domain_address_round_trips() {
    let addr = TargetAddr::Domain("host.local".to_owned(), 8443);
    let bytes = addr.to_be_bytes().unwrap();
    assert_eq!(bytes[0], 3);
    assert_eq!(bytes[1], 10);
    assert_eq!(&bytes[2..12], b"host.local");
    assert_eq!(&bytes[12..], &[0x20, 0xfb]);
    let mut body = bytes[1..].to_vec();
    body.extend_from_slice(&[0xde, 0xad]);
    let (back, n) = read_address(&body, bytes[0]).unwrap();
    assert_eq!(n, bytes.len() - 1);
    match back {
        TargetAddr::Domain(d, p) => {
            assert_eq!(d, "host.local");
            assert_eq!(p, 8443);
        }
        other => panic!("unexpected {:?}", other),
    }
}

#[test]
fn ip_addresses_round_trip() {
    let addrs = [
        TargetAddr::Ip(SocketAddr::V4([1, 2, 3, 4], 65535)),
        TargetAddr::Ip(SocketAddr::V6([9; 16], 0)),
    ];
    for addr in addrs {
        let bytes = addr.to_be_bytes().unwrap();
        let (back, n) = read_address(&bytes[1..], bytes[0]).unwrap();
        assert_eq!(n, bytes.len() - 1);
        assert_eq!(format!("{:?}", back), format!("{:?}", addr));
    }
}

#[test]
fn long_domain_cannot_be_written() {
    let addr = TargetAddr::Domain("a".repeat(256), 1);
    assert!(matches!(addr.to_be_bytes(), Err(Socks5Error::ExceededMaxDomainLen(256))));
    assert!(matches!(
        new_udp_header(&addr),
        Err(VpnError::Socks5Error(Socks5Error::ExceededMaxDomainLen(256)))
    ));
}

#[test]
fn port_bytes_are_big_endian() {
    let mut v = vec![7u8];
    push_port(&mut v, 0x1234);
    assert_eq!(v, vec![7, 0x12, 0x34]);
    assert_eq!(read_port(&v, 1), 0x1234);
    assert_eq!(copy_range(&v, 1, 3), vec![0x12, 0x34]);
}

#[test]
fn udp_request_is_split() {
    let req = [0u8, 0, 0, 1, 1, 1, 1, 1, 0, 53, b'q', b'r'];
    let (frag, addr, data) = parse_udp_request(&req).unwrap();
    assert_eq!(frag, 0);
    assert!(matches!(addr, TargetAddr::Ip(SocketAddr::V4([1, 1, 1, 1], 53))));
    assert_eq!(data, b"qr");
}

#[test]
fn udp_request_errors() {
    assert!(matches!(parse_udp_request(&[0]), Err(VpnError::Truncated(Socks5Field::UdpHeader))));
    assert!(matches!(
        parse_udp_request(&[0, 1, 0, 1]),
        Err(VpnError::Socks5Error(Socks5Error::GeneralFailure))
    ));
    assert!(matches!(parse_udp_request(&[0, 0, 0]), Err(VpnError::Truncated(Socks5Field::UdpHeader))));
    assert!(matches!(
        parse_udp_request(&[0, 0, 0, 1, 1]),
        Err(VpnError::AddrError(AddrError::IPv4Unreadable))
    ));
}

#[test]
fn udp_header_round_trips() {
    let addr = TargetAddr::Ip(SocketAddr::V4([10, 1, 2, 3], 5353));
    let mut datagram = new_udp_header(&addr).unwrap();
    assert_eq!(datagram, vec![0, 0, 0, 1, 10, 1, 2, 3, 0x14, 0xe9]);
    datagram.extend_from_slice(b"payload");
    let (frag, back, data) = parse_udp_request(&datagram).unwrap();
    assert_eq!(frag, 0);
    assert_eq!(format!("{:?}", back), format!("{:?}", addr));
    assert_eq!(data, b"payload");
}

#[test]
fn udp_packets_are_forwarded_skipped_or_stop() {
    match udp_packet_action(&[0, 0, 0, 1, 9, 9, 9, 9, 0, 7, 1, 2]) {
        UdpPacketAction::Forward(TargetAddr::Ip(SocketAddr::V4(ip, port)), data) => {
            assert_eq!(ip, [9, 9, 9, 9]);
            assert_eq!(port, 7);
            assert_eq!(data, vec![1, 2]);
        }
        _ => panic!("expected a forward"),
    }
    assert!(matches!(udp_packet_action(&[1, 0, 0, 1]), UdpPacketAction::Skip));
    assert!(matches!(udp_packet_action(&[0, 0, 2, 1, 9, 9, 9, 9, 0, 7]), UdpPacketAction::Stop));
}

#[test]
fn udp_datagrams_for_the_client() {
    let addr = TargetAddr::Ip(SocketAddr::V4([4, 3, 2, 1], 80));
    let d = udp_datagram_for(Some(SocksMsg::UdpData(addr, Box::new(vec![0xab])))).unwrap();
    assert_eq!(d, vec![0, 0, 0, 1, 4, 3, 2, 1, 0, 80, 0xab]);
    assert!(udp_datagram_for(None).is_none());
    assert!(udp_datagram_for(Some(SocksMsg::ClosePort(3))).is_none());
    let long = TargetAddr::Domain("x".repeat(300), 1);
    assert!(udp_datagram_for(Some(SocksMsg::UdpData(long, Box::new(vec![])))).is_none());
}

#[test]
fn connect_replies() {
    let bound = TargetAddr::Ip(SocketAddr::V4([5, 6, 7, 8], 4000));
    let (reply, go_on) = tcp_connect_reply(Some(SocksMsg::TcpConnectSuccess(1, bound)));
    assert_eq!(reply, vec![5, 0, 0, 1, 5, 6, 7, 8, 0x0f, 0xa0]);
    assert!(go_on);
    let (reply, go_on) = tcp_connect_reply(Some(SocksMsg::TcpConnectFailed(1)));
    assert_eq!(reply, vec![5, 1, 0, 1, 0, 0, 0, 0, 0, 0]);
    assert!(!go_on);
    let (reply, go_on) = tcp_connect_reply(None);
    assert_eq!(reply, vec![5, 1, 0, 1, 0, 0, 0, 0, 0, 0]);
    assert!(!go_on);
    let domain = TargetAddr::Domain("d".to_owned(), 1);
    let (_, go_on) = tcp_connect_reply(Some(SocksMsg::TcpConnectSuccess(1, domain)));
    assert!(!go_on);
}

#[test]
fn associate_replies() {
    let relay = SocketAddr::V4([127, 0, 0, 1], 9000);
    let (reply, go_on) = udp_associate_reply(Some(SocksMsg::UdpAssociateSuccess(2)), &relay);
    assert_eq!(reply, vec![5, 0, 0, 1, 127, 0, 0, 1, 0x23, 0x28]);
    assert!(go_on);
    let (reply, go_on) = udp_associate_reply(Some(SocksMsg::UdpAssociateFailed(2)), &relay);
    assert_eq!(reply, vec![5, 1, 0, 1, 0, 0, 0, 0, 0, 0]);
    assert!(!go_on);
}

#[test]
fn unspecified_address_is_zero() {
    assert!(matches!(unspecified_socket_addr(), SocketAddr::V4([0, 0, 0, 0], 0)));
}

#[test]
fn port_ids_must_match() {
    assert!(matches!(check_port_ids(7, 7), Ok(7)));
    match check_port_ids(12, 345) {
        Err(VpnError::ServiceError(ServiceError::ChannelIdError(m))) => assert_eq!(m, "12 != 345"),
        other => panic!("unexpected {:?}", other),
    }
}

#[test]
fn tcp_payloads_for_the_client() {
    let d = vpn::socks5::socks5_processor::tcp_payload_for(Some(SocksMsg::Data(Box::new(vec![4, 2]))));
    assert_eq!(*d.unwrap(), vec![4, 2]);
    assert!(vpn::socks5::socks5_processor::tcp_payload_for(Some(SocksMsg::ClosePort(1))).is_none());
    assert!(vpn::socks5::socks5_processor::tcp_payload_for(None).is_none());
}
