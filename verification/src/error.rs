//! Errors of the proxy library.
use vstd::prelude::*;

verus! {

/// Which piece of a SOCKS5 message could not be read because the peer sent too few bytes,
/// or could not be decoded.
#[derive(Debug, Clone, Copy, PartialEq, Eq, Structural)]
pub enum Socks5Field {
    /// The method-selection header `VER NMETHODS`.
    MethodsHeader,
    /// The list of offered methods.
    Methods,
    /// The request header `VER CMD RSV ATYP`.
    RequestHeader,
    /// The username/password header `VER ULEN`.
    UsernameHeader,
    /// The username bytes.
    Username,
    /// The password length byte.
    PasswordLength,
    /// The password bytes.
    Password,
    /// The UDP request header `RSV FRAG ATYP`.
    UdpHeader,
}

/// Errors of the tunnel and of the SOCKS5 server.
#[derive(Debug)]
pub enum VpnError {
    /// A general failure, with its message.
    InternalError(String),
    /// A frame of the stream could not be handled.
    StreamError(StreamError),
    /// A message of the tunnel could not be handled.
    ServiceError(ServiceError),
    /// The SOCKS5 protocol was violated.
    Socks5Error(Socks5Error),
    /// A SOCKS5 address could not be read.
    AddrError(AddrError),
    /// The peer stopped before a field was complete.
    Truncated(Socks5Field),
    /// A field that must be UTF-8 was not.
    NotUtf8(Socks5Field),
    /// Encryption of a payload failed.
    EncryptError,
    /// Decryption of a payload failed.
    DecryptError,
    /// Connecting to a remote over TCP failed.
    TcpConnectkError(String),
    /// Closing a TCP connection failed.
    TcpDisconnectError(String),
}

/// Errors of the frame codec.
#[derive(Debug, Clone, Copy, PartialEq, Eq, Structural)]
pub enum StreamError {
    /// The frame is larger than the 31 bits of its length allow.
    FrameTooLarge,
    /// The compressed payload of a frame is not valid gzip.
    InvalidCompression,
}

/// Errors of the tunnel service.
#[derive(Debug)]
pub enum ServiceError {
    /// Connecting to the server failed.
    TcpConnectError(String),
    /// A message without a command arrived.
    UnknownCommand(String),
    /// A channel was opened with an id that is already in use.
    ChannelIdExists(u32),
    /// The two halves of a port disagree on their id.
    ChannelIdError(String),
    /// A message could not be sent into the tunnel.
    SendTunnelMsgError,
    /// A payload could not be decrypted (most likely the key is wrong).
    DecryptError,
}

/// Violations of the SOCKS5 protocol.
#[derive(Debug)]
pub enum Socks5Error {
    /// A domain name is longer than the 255 bytes its length byte can hold.
    ExceededMaxDomainLen(usize),
    /// The version byte is not 5.
    UnsupportedSocksVersion(u8),
    /// None of the offered methods is acceptable.
    AuthMethodUnacceptable(Vec<u8>),
    /// The credentials are malformed.
    AuthenticationFailed(String),
    /// The credentials are wrong.
    AuthenticationRejected(String),
    /// The command is not supported.
    SocksCommandNotSupported,
    /// The reserved bytes of a UDP request are not zero.
    GeneralFailure,
    /// The version byte of the username/password sub-negotiation is not 1.
    UnsupportedAuthVersion(u8),
}

/// Errors of SOCKS5 addresses.
#[derive(Debug)]
pub enum AddrError {
    DNSResolutionFailed,
    IPv4Unreadable,
    ParseIpv4Error,
    IPv6Unreadable,
    ParseIpv6Error,
    PortNumberUnreadable,
    DomainLenUnreadable,
    DomainContentUnreadable,
    Utf8,
    IncorrectAddressType,
    Empty,
    Custom(String),
}

} // verus!
