use vpn::error::{AddrError, Socks5Error, Socks5Field, VpnError};
use vpn::socks5::command::Socks5Command;
use vpn::socks5::socks5_stream::{
    authenticate, can_accept_method, execute_command, get_methods, needs_more, new_reply,
    read_command, read_username_password, Socks5Stream,
};
use vpn::util::client_config::{AuthInfo, AuthType};
use vpn::util::target_addr::{SocketAddr, TargetAddr};

fn creds(user: &str, pass: &str) -> AuthInfo {
    AuthInfo { username: user.to_owned(), password: pass.to_owned() }
}

#[test]
fn stream_keeps_its_connection() {
    let s = Socks5Stream::new(42u32);
    assert_eq!(s.stream, 42);
}

#[test]
fn methods_are_read_with_their_length() {
    let (methods, n) = get_methods(&[5, 2, 0, 2, 99]).unwrap();
    assert_eq!(methods, vec![0, 2]);
    assert_eq!(n, 4);
}

#[test]
fn methods_errors() {
    assert!(matches!(get_methods(&[5]), Err(VpnError::Truncated(Socks5Field::MethodsHeader))));
    assert!(matches!(
        get_methods(&[4, 1, 0]),
        Err(VpnError::Socks5Error(Socks5Error::UnsupportedSocksVersion(4)))
    ));
    assert!(matches!(get_methods(&[5, 3, 0, 1]), Err(VpnError::Truncated(Socks5Field::Methods))));
}

#[test]
fn methods_read_back_and_ignore_what_follows() {
    let offered = vec![0u8, 1, 2];
    let mut msg = vec![5u8, offered.len() as u8];
    msg.extend_from_slice(&offered);
    let (m1, n1) = get_methods(&msg).unwrap();
    msg.extend_from_slice(&[7, 7, 7]);
    let (m2, n2) = get_methods(&msg).unwrap();
    assert_eq!(m1, offered);
    assert_eq!(m2, offered);
    assert_eq!(n1, 5);
    assert_eq!(n2, 5);
}

#[test]
fn no_auth_is_always_accepted() {
    let (reply, r) = can_accept_method(vec![2], &AuthType::NoAuth);
    assert_eq!(reply, vec![5, 0]);
    assert!(r.is_ok());
}

#[test]
fn password_is_chosen_when_offered() {
    let auth = AuthType::Auth(creds("u", "p"));
    let (reply, r) = can_accept_method(vec![0, 2], &auth);
    assert_eq!(reply, vec![5, 2]);
    assert!(r.is_ok());
}

#[test]
fn password_not_offered_is_refused() {
    let auth = AuthType::Auth(creds("u", "p"));
    let (reply, r) = can_accept_method(vec![0, 1], &auth);
    assert_eq!(reply, vec![5, 0xff]);
    match r {
        Err(VpnError::Socks5Error(Socks5Error::AuthMethodUnacceptable(m))) => {
            assert_eq!(m, vec![0, 1])
        }
        other => panic!("unexpected {:?}", other),
    }
}

#[test]
fn credentials_are_read() {
    let msg = [1u8, 3, b'b', b'o', b'b', 2, b'p', b'w', 0xaa];
    let (info, n) = read_username_password(&msg).unwrap();
    assert_eq!(info.username, "bob");
    assert_eq!(info.password, "pw");
    assert_eq!(n, 8);
}

#[test]
fn credentials_errors() {
    assert!(matches!(
        read_username_password(&[1]),
        Err(VpnError::Truncated(Socks5Field::UsernameHeader))
    ));
    match read_username_password(&[1, 0, 1, b'x']) {
        Err(VpnError::Socks5Error(Socks5Error::AuthenticationFailed(m))) => {
            assert_eq!(m, "Username malformed (0 chars)")
        }
        other => panic!("unexpected {:?}", other),
    }
    assert!(matches!(
        read_username_password(&[1, 3, b'a']),
        Err(VpnError::Truncated(Socks5Field::Username))
    ));
    assert!(matches!(
        read_username_password(&[1, 1, b'a']),
        Err(VpnError::Truncated(Socks5Field::PasswordLength))
    ));
    match read_username_password(&[1, 1, b'a', 0]) {
        Err(VpnError::Socks5Error(Socks5Error::AuthenticationFailed(m))) => {
            assert_eq!(m, "Password malformed (0 chars)")
        }
        other => panic!("unexpected {:?}", other),
    }
    assert!(matches!(
        read_username_password(&[1, 1, b'a', 2, b'b']),
        Err(VpnError::Truncated(Socks5Field::Password))
    ));
    assert!(matches!(
        read_username_password(&[1, 1, 0xff, 1, b'b']),
        Err(VpnError::NotUtf8(Socks5Field::Username))
    ));
    assert!(matches!(
        read_username_password(&[1, 1, b'a', 1, 0xc3]),
        Err(VpnError::NotUtf8(Socks5Field::Password))
    ));
}

#[test]
fn credentials_read_back_whatever_follows() {
    let msg = [1u8, 2, b'h', b'i', 3, b'a', b'b', b'c', 5, 1, 0];
    let (info, n) = read_username_password(&msg).unwrap();
    assert_eq!(info.username, "hi");
    assert_eq!(info.password, "abc");
    assert_eq!(n, 8);
}

#[test]
fn matching_credentials_authenticate() {
    let (reply, r) = authenticate(&creds("admin", "password"), &creds("admin", "password"));
    assert_eq!(reply, vec![1, 0]);
    assert!(r.is_ok());
}

#[test]
fn wrong_credentials_are_rejected() {
    let (reply, r) = authenticate(&creds("admin", "guess"), &creds("admin", "password"));
    assert_eq!(reply, vec![1, 1]);
    match r {
        Err(VpnError::Socks5Error(Socks5Error::AuthenticationRejected(m))) => {
            assert_eq!(m, "Authentication, rejected(admin, guess)")
        }
        other => panic!("unexpected {:?}", other),
    }
}

#[test]
fn connect_request_to_ipv4_is_read() {
    let msg = [5u8, 1, 0, 1, 10, 0, 0, 1, 0x01, 0xbb];
    let (cmd, addr, n) = read_command(&msg).unwrap();
    assert_eq!(cmd, Socks5Command::TCPConnect);
    assert!(matches!(addr, TargetAddr::Ip(SocketAddr::V4([10, 0, 0, 1], 443))));
    assert_eq!(n, 10);
}

#[test]
fn udp_request_to_domain_is_read() {
    let mut msg = vec![5u8, 3, 0, 3, 11];
    msg.extend_from_slice(b"example.com");
    msg.extend_from_slice(&[0, 53]);
    msg.extend_from_slice(&[1, 2, 3]);
    let (cmd, addr, n) = read_command(&msg).unwrap();
    assert_eq!(cmd, Socks5Command::UDPAssociate);
    match addr {
        TargetAddr::Domain(d, p) => {
            assert_eq!(d, "example.com");
            assert_eq!(p, 53);
        }
        other => panic!("unexpected {:?}", other),
    }
    assert_eq!(n, 4 + 1 + 11 + 2);
}

#[test]
fn connect_request_to_ipv6_is_read() {
    let mut msg = vec![5u8, 1, 0, 4];
    let ip: [u8; 16] = [0x20, 0x01, 0x0d, 0xb8, 0, 0, 0, 0, 0, 0, 0, 0, 0, 0, 0, 1];
    msg.extend_from_slice(&ip);
    msg.extend_from_slice(&[0x1f, 0x90]);
    let (_, addr, n) = read_command(&msg).unwrap();
    match addr {
        TargetAddr::Ip(SocketAddr::V6(a, p)) => {
            assert_eq!(a, ip);
            assert_eq!(p, 8080);
        }
        other => panic!("unexpected {:?}", other),
    }
    assert_eq!(n, 22);
}

#[test]
fn request_errors() {
    assert!(matches!(read_command(&[5, 1, 0]), Err(VpnError::Truncated(Socks5Field::RequestHeader))));
    assert!(matches!(
        read_command(&[4, 1, 0, 1]),
        Err(VpnError::Socks5Error(Socks5Error::UnsupportedSocksVersion(4)))
    ));
    assert!(matches!(
        read_command(&[5, 2, 0, 1, 1, 2, 3, 4, 0, 80]),
        Err(VpnError::Socks5Error(Socks5Error::SocksCommandNotSupported))
    ));
    assert!(matches!(
        read_command(&[5, 9, 0, 1]),
        Err(VpnError::Socks5Error(Socks5Error::SocksCommandNotSupported))
    ));
    assert!(matches!(read_command(&[5, 1, 0, 1, 1, 2]), Err(VpnError::AddrError(AddrError::IPv4Unreadable))));
    assert!(matches!(
        read_command(&[5, 1, 0, 1, 1, 2, 3, 4, 0]),
        Err(VpnError::AddrError(AddrError::PortNumberUnreadable))
    ));
    assert!(matches!(read_command(&[5, 1, 0, 7, 1]), Err(VpnError::AddrError(AddrError::IncorrectAddressType))));
}

#[test]
fn request_read_is_unchanged_by_more_bytes() {
    let short = vec![5u8, 1, 0, 1, 192, 168, 1, 2, 0, 22];
    let mut long = short.clone();
    long.extend_from_slice(&[9, 9, 9, 9]);
    let (c1, a1, n1) = read_command(&short).unwrap();
    let (c2, a2, n2) = read_command(&long).unwrap();
    assert_eq!(c1, c2);
    assert_eq!(n1, n2);
    assert_eq!(format!("{:?}", a1), format!("{:?}", a2));
}

#[test]
fn commands_execute() {
    assert!(matches!(execute_command(Socks5Command::TCPConnect), Ok(true)));
    assert!(matches!(execute_command(Socks5Command::UDPAssociate), Ok(false)));
    assert!(matches!(
        execute_command(Socks5Command::TCPBind),
        Err(VpnError::Socks5Error(Socks5Error::SocksCommandNotSupported))
    ));
}

#[test]
fn reply_bytes_for_ipv4_and_ipv6() {
    let r4 = new_reply(0, &SocketAddr::V4([127, 0, 0, 1], 1080));
    assert_eq!(r4, vec![5, 0, 0, 1, 127, 0, 0, 1, 0x04, 0x38]);
    let r6 = new_reply(1, &SocketAddr::V6([0; 16], 1));
    let mut expected = vec![5, 1, 0, 4];
    expected.extend_from_slice(&[0; 16]);
    expected.extend_from_slice(&[0, 1]);
    assert_eq!(r6, expected);
}

#[test]
fn command_codes_round_trip() {
    for cmd in [Socks5Command::TCPConnect, Socks5Command::TCPBind, Socks5Command::UDPAssociate] {
        assert_eq!(Socks5Command::from_u8(cmd.as_u8()), Some(cmd));
    }
    assert_eq!(Socks5Command::from_u8(0), None);
    assert_eq!(Socks5Command::TCPBind.as_u8(), 2);
}

#[test]
fn only_short_reads_ask_for_more() {
    assert!(needs_more(&VpnError::Truncated(Socks5Field::Methods)));
    assert!(needs_more(&VpnError::AddrError(AddrError::DomainContentUnreadable)));
    assert!(needs_more(&VpnError::AddrError(AddrError::PortNumberUnreadable)));
    assert!(!needs_more(&VpnError::AddrError(AddrError::Utf8)));
    assert!(!needs_more(&VpnError::AddrError(AddrError::IncorrectAddressType)));
    assert!(!needs_more(&VpnError::Socks5Error(Socks5Error::SocksCommandNotSupported)));
    let short = read_command(&[5, 1, 0, 3, 4, b'a']).unwrap_err();
    assert!(needs_more(&short));
    let bad = read_command(&[5, 1, 0, 3, 1, 0xff]).unwrap_err();
    assert!(!needs_more(&bad));
    assert!(matches!(read_command(&[5, 1, 0, 3, 1, 0xff, 0, 80, 1]), Err(VpnError::AddrError(AddrError::Utf8))));
}

#[test]
fn only_auth_version_one_is_read() {
    let mut msg = vec![2u8, 5];
    msg.extend_from_slice(b"admin");
    msg.push(8);
    msg.extend_from_slice(b"password");
    assert!(matches!(
        read_username_password(&msg),
        Err(VpnError::Socks5Error(Socks5Error::UnsupportedAuthVersion(2)))
    ));
    msg[0] = 1;
    let (info, n) = read_username_password(&msg).unwrap();
    assert_eq!(info.username, "admin");
    assert_eq!(n, 16);
}

#[test]
fn zero_lengths_are_reported_before_the_version() {
    match read_username_password(&[2, 0, 1, b'x']) {
        Err(VpnError::Socks5Error(Socks5Error::AuthenticationFailed(m))) => {
            assert_eq!(m, "Username malformed (0 chars)")
        }
        other => panic!("unexpected {:?}", other),
    }
    match read_username_password(&[2, 1, b'a', 0]) {
        Err(VpnError::Socks5Error(Socks5Error::AuthenticationFailed(m))) => {
            assert_eq!(m, "Password malformed (0 chars)")
        }
        other => panic!("unexpected {:?}", other),
    }
    assert!(matches!(
        read_username_password(&[2, 1, b'a', 1]),
        Err(VpnError::Socks5Error(Socks5Error::UnsupportedAuthVersion(2)))
    ));
}
