//! SOCKS5 addresses and their wire format (RFC 1928, section 5).
use vstd::prelude::*;
use vstd::utf8::{encode_utf8, encode_utf8_valid_utf8, valid_utf8};

use crate::error::{AddrError, Socks5Error};
use crate::socks5::command::consts::{
    SOCKS5_ADDR_TYPE_DOMAIN_NAME, SOCKS5_ADDR_TYPE_IPV4, SOCKS5_ADDR_TYPE_IPV6,
};
use crate::util::bytes::{
    copy_range, port_bytes, port_from_bytes, push_all, push_port, read_port, string_bytes,
    string_from_utf8,
};

verus! {

/// An IP endpoint: the address octets and a port.
#[derive(Debug, Clone, Copy)]
pub enum SocketAddr {
    V4([u8; 4], u16),
    V6([u8; 16], u16),
}

/// The destination of a SOCKS5 request: an IP endpoint or a domain name and a port.
#[derive(Debug)]
pub enum TargetAddr {
    Ip(SocketAddr),
    Domain(String, u16),
}

/// What an address is, byte for byte: the octets of an IP, or the UTF-8 bytes of a domain.
pub enum AddrModel {
    Ip4(Seq<u8>, u16),
    Ip6(Seq<u8>, u16),
    Domain(Seq<u8>, u16),
}

impl View for SocketAddr {
    type V = AddrModel;

    open spec fn view(&self) -> AddrModel {
        match self {
            SocketAddr::V4(ip, port) => AddrModel::Ip4(ip@, *port),
            SocketAddr::V6(ip, port) => AddrModel::Ip6(ip@, *port),
        }
    }
}

impl View for TargetAddr {
    type V = AddrModel;

    open spec fn view(&self) -> AddrModel {
        match self {
            TargetAddr::Ip(sa) => sa@,
            TargetAddr::Domain(d, port) => AddrModel::Domain(encode_utf8(d@), *port),
        }
    }
}

/// The address-type byte of an address.
pub open spec fn addr_type(m: AddrModel) -> u8 {
    match m {
        AddrModel::Ip4(..) => SOCKS5_ADDR_TYPE_IPV4,
        AddrModel::Ip6(..) => SOCKS5_ADDR_TYPE_IPV6,
        AddrModel::Domain(..) => SOCKS5_ADDR_TYPE_DOMAIN_NAME,
    }
}

/// The bytes of an address after its type byte.
pub open spec fn addr_body(m: AddrModel) -> Seq<u8> {
    match m {
        AddrModel::Ip4(ip, port) => ip + port_bytes(port),
        AddrModel::Ip6(ip, port) => ip + port_bytes(port),
        AddrModel::Domain(d, port) => seq![d.len() as u8] + d + port_bytes(port),
    }
}

/// The wire form of an address: `ATYP ADDR PORT`.
pub open spec fn addr_bytes(m: AddrModel) -> Seq<u8> {
    seq![addr_type(m)] + addr_body(m)
}

/// An address can be written: a domain fits the 255 bytes of its length byte.
pub open spec fn addr_encodable(m: AddrModel) -> bool {
    m matches AddrModel::Domain(d, _) ==> d.len() <= 255
}

/// The byte length of an address's domain (zero for an IP).
pub open spec fn domain_len(m: AddrModel) -> int {
    match m {
        AddrModel::Domain(d, _) => d.len() as int,
        _ => 0,
    }
}

/// An address as reading can produce it: octet counts of IPs, a short UTF-8 domain.
pub open spec fn addr_well_formed(m: AddrModel) -> bool {
    match m {
        AddrModel::Ip4(ip, _) => ip.len() == 4,
        AddrModel::Ip6(ip, _) => ip.len() == 16,
        AddrModel::Domain(d, _) => d.len() <= 255 && valid_utf8(d),
    }
}

/// Reading the address of type `atyp` from the front of `s`: the address and the
/// number of bytes it took, or the error of the first field that is short or invalid.
pub open spec fn parse_address(atyp: u8, s: Seq<u8>) -> Result<(AddrModel, int), AddrError> {
    if atyp == SOCKS5_ADDR_TYPE_IPV4 {
        if s.len() < 4 {
            Err(AddrError::IPv4Unreadable)
        } else if s.len() < 6 {
            Err(AddrError::PortNumberUnreadable)
        } else {
            Ok((AddrModel::Ip4(s.subrange(0, 4), port_from_bytes(s[4], s[5])), 6))
        }
    } else if atyp == SOCKS5_ADDR_TYPE_IPV6 {
        if s.len() < 16 {
            Err(AddrError::IPv6Unreadable)
        } else if s.len() < 18 {
            Err(AddrError::PortNumberUnreadable)
        } else {
            Ok((AddrModel::Ip6(s.subrange(0, 16), port_from_bytes(s[16], s[17])), 18))
        }
    } else if atyp == SOCKS5_ADDR_TYPE_DOMAIN_NAME {
        if s.len() < 1 {
            Err(AddrError::DomainLenUnreadable)
        } else if s.len() < 1 + s[0] {
            Err(AddrError::DomainContentUnreadable)
        } else if !valid_utf8(s.subrange(1, 1 + s[0])) {
            Err(AddrError::Utf8)
        } else if s.len() < 3 + s[0] {
            Err(AddrError::PortNumberUnreadable)
        } else {
            Ok(
                (
                    AddrModel::Domain(
                        s.subrange(1, 1 + s[0]),
                        port_from_bytes(s[1 + s[0]], s[2 + s[0]]),
                    ),
                    3 + s[0],
                ),
            )
        }
    } else {
        Err(AddrError::IncorrectAddressType)
    }
}

/// Reads an address of type `atyp` from the front of `buf`; returns it with the number of
/// bytes it took. The errors name the first field that `buf` holds too few bytes of.
pub fn read_address(buf: &[u8], atyp: u8) -> (r: Result<(TargetAddr, usize), AddrError>)
    ensures
        match parse_address(atyp, buf@) {
            Ok((m, n)) => r matches Ok((a, k)) && a@ == m && k == n,
            Err(e) => r == Err::<(TargetAddr, usize), AddrError>(e),
        },
{
    if atyp == SOCKS5_ADDR_TYPE_IPV4 {
        if buf.len() < 4 {
            return Err(AddrError::IPv4Unreadable);
        }
        if buf.len() < 6 {
            return Err(AddrError::PortNumberUnreadable);
        }
        let ip: [u8; 4] = [buf[0], buf[1], buf[2], buf[3]];
        let port = read_port(buf, 4);
        assert(ip@ =~= buf@.subrange(0, 4));
        Ok((TargetAddr::Ip(SocketAddr::V4(ip, port)), 6))
    } else if atyp == SOCKS5_ADDR_TYPE_IPV6 {
        if buf.len() < 16 {
            return Err(AddrError::IPv6Unreadable);
        }
        if buf.len() < 18 {
            return Err(AddrError::PortNumberUnreadable);
        }
        let ip: [u8; 16] = [
            buf[0],
            buf[1],
            buf[2],
            buf[3],
            buf[4],
            buf[5],
            buf[6],
            buf[7],
            buf[8],
            buf[9],
            buf[10],
            buf[11],
            buf[12],
            buf[13],
            buf[14],
            buf[15],
        ];
        let port = read_port(buf, 16);
        assert(ip@ =~= buf@.subrange(0, 16));
        Ok((TargetAddr::Ip(SocketAddr::V6(ip, port)), 18))
    } else if atyp == SOCKS5_ADDR_TYPE_DOMAIN_NAME {
        if buf.len() < 1 {
            return Err(AddrError::DomainLenUnreadable);
        }
        let n = buf[0] as usize;
        if buf.len() < 1 + n {
            return Err(AddrError::DomainContentUnreadable);
        }
        let raw = copy_range(buf, 1, 1 + n);
        let domain = match string_from_utf8(raw) {
            Some(d) => d,
            None => return Err(AddrError::Utf8),
        };
        if buf.len() < 3 + n {
            return Err(AddrError::PortNumberUnreadable);
        }
        let port = read_port(buf, 1 + n);
        Ok((TargetAddr::Domain(domain, port), 3 + n))
    } else {
        Err(AddrError::IncorrectAddressType)
    }
}

impl TargetAddr {
    /// The wire form `ATYP ADDR PORT`; a domain longer than 255 bytes cannot be written.
    pub fn to_be_bytes(&self) -> (r: Result<Vec<u8>, Socks5Error>)
        ensures
            addr_encodable(self@) ==> (r matches Ok(v) && v@ == addr_bytes(self@)),
            !addr_encodable(self@) ==> (r matches Err(Socks5Error::ExceededMaxDomainLen(n)) && n
                == domain_len(self@)),
    {
        let mut buf: Vec<u8> = Vec::new();
        match self {
            TargetAddr::Ip(SocketAddr::V4(ip, port)) => {
                buf.push(SOCKS5_ADDR_TYPE_IPV4);
                push_all(&mut buf, ip.as_slice());
                push_port(&mut buf, *port);
            },
            TargetAddr::Ip(SocketAddr::V6(ip, port)) => {
                buf.push(SOCKS5_ADDR_TYPE_IPV6);
                push_all(&mut buf, ip.as_slice());
                push_port(&mut buf, *port);
            },
            TargetAddr::Domain(domain, port) => {
                let bytes = string_bytes(domain);
                if bytes.len() > 255 {
                    return Err(Socks5Error::ExceededMaxDomainLen(bytes.len()));
                }
                buf.push(SOCKS5_ADDR_TYPE_DOMAIN_NAME);
                buf.push(bytes.len() as u8);
                push_all(&mut buf, bytes);
                push_port(&mut buf, *port);
            },
        }
        assert(buf@ =~= addr_bytes(self@));
        Ok(buf)
    }
}

/// Every address that can be written is well formed as reading produces it.
pub proof fn lemma_target_addr_well_formed(a: TargetAddr)
    requires
        addr_encodable(a@),
    ensures
        addr_well_formed(a@),
{
    match a {
        TargetAddr::Domain(d, _) => {
            encode_utf8_valid_utf8(d@);
        },
        _ => {},
    }
}

/// Reading back the wire form of a well-formed address, followed by any bytes, gives the
/// address and consumes exactly its body.
pub proof fn lemma_address_roundtrip(m: AddrModel, rest: Seq<u8>)
    requires
        addr_well_formed(m),
    ensures
        parse_address(addr_type(m), addr_body(m) + rest) == Ok::<(AddrModel, int), AddrError>(
            (m, addr_body(m).len() as int),
        ),
{
    let s = addr_body(m) + rest;
    match m {
        AddrModel::Ip4(ip, port) => {
            assert(s.subrange(0, 4) =~= ip);
        },
        AddrModel::Ip6(ip, port) => {
            assert(s.subrange(0, 16) =~= ip);
        },
        AddrModel::Domain(d, port) => {
            assert(s[0] == d.len());
            assert(s.subrange(1, 1 + d.len() as int) =~= d);
        },
    }
}

/// Once an address has been read from `s`, more bytes after `s` change nothing: it is read
/// the same way, from the same number of bytes.
pub proof fn lemma_address_prefix_stable(atyp: u8, s: Seq<u8>, more: Seq<u8>)
    requires
        parse_address(atyp, s) is Ok,
    ensures
        parse_address(atyp, s + more) == parse_address(atyp, s),
{
    let t = s + more;
    if atyp == SOCKS5_ADDR_TYPE_IPV4 {
        assert(t.subrange(0, 4) =~= s.subrange(0, 4));
    } else if atyp == SOCKS5_ADDR_TYPE_IPV6 {
        assert(t.subrange(0, 16) =~= s.subrange(0, 16));
    } else {
        assert(t.subrange(1, 1 + s[0]) =~= s.subrange(1, 1 + s[0]));
    }
}

/// An address error that only says the bytes end too early.
pub open spec fn addr_error_incomplete(e: AddrError) -> bool {
    match e {
        AddrError::IPv4Unreadable => true,
        AddrError::IPv6Unreadable => true,
        AddrError::PortNumberUnreadable => true,
        AddrError::DomainLenUnreadable => true,
        AddrError::DomainContentUnreadable => true,
        _ => false,
    }
}

/// An address that cannot be read for another reason than too few bytes (an unknown type,
/// a domain that is not UTF-8) cannot be read whatever follows either.
pub proof fn lemma_address_error_stable(atyp: u8, s: Seq<u8>, more: Seq<u8>)
    requires
        parse_address(atyp, s) matches Err(e) && !addr_error_incomplete(e),
    ensures
        parse_address(atyp, s + more) == parse_address(atyp, s),
{
    let t = s + more;
    if atyp == SOCKS5_ADDR_TYPE_DOMAIN_NAME {
        assert(t.subrange(1, 1 + s[0]) =~= s.subrange(1, 1 + s[0]));
    }
}

} // verus!
