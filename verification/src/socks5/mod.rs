//! The SOCKS5 server side: wire formats and the decisions of the handshake.
pub mod command;
pub mod socks5_processor;
pub mod socks5_stream;

use vstd::prelude::*;

use crate::error::{Socks5Error, Socks5Field, VpnError};
use crate::util::bytes::push_all;
use crate::util::target_addr::{
    addr_body, addr_bytes, addr_encodable, addr_type, addr_well_formed, domain_len,
    lemma_address_roundtrip, lemma_target_addr_well_formed, parse_address, read_address,
    AddrModel, TargetAddr,
};

verus! {

/// How the UDP request header `RSV FRAG ATYP DST.ADDR DST.PORT` at the front of `s` reads:
/// the fragment number, the destination and where the data starts.
pub open spec fn spec_parse_udp_request(s: Seq<u8>) -> Result<(u8, AddrModel, int), VpnError> {
    if s.len() < 2 {
        Err(VpnError::Truncated(Socks5Field::UdpHeader))
    } else if s[0] != 0 || s[1] != 0 {
        Err(VpnError::Socks5Error(Socks5Error::GeneralFailure))
    } else if s.len() < 4 {
        Err(VpnError::Truncated(Socks5Field::UdpHeader))
    } else {
        match parse_address(s[3], s.subrange(4, s.len() as int)) {
            Err(e) => Err(VpnError::AddrError(e)),
            Ok((m, n)) => Ok((s[2], m, 4 + n)),
        }
    }
}

/// Splits a UDP request of a SOCKS5 client into its fragment number, its destination and
/// its data.
pub fn parse_udp_request<'a>(req: &'a [u8]) -> (r: Result<(u8, TargetAddr, &'a [u8]), VpnError>)
    ensures
        match spec_parse_udp_request(req@) {
            Ok((frag, m, n)) => r matches Ok((f, a, data)) && f == frag && a@ == m && data@
                == req@.subrange(n, req@.len() as int),
            Err(e) => r matches Err(e2) && e2 == e,
        },
{
    if req.len() < 2 {
        return Err(VpnError::Truncated(Socks5Field::UdpHeader));
    }
    if req[0] != 0 || req[1] != 0 {
        return Err(VpnError::Socks5Error(Socks5Error::GeneralFailure));
    }
    if req.len() < 4 {
        return Err(VpnError::Truncated(Socks5Field::UdpHeader));
    }
    let frag = req[2];
    let atyp = req[3];
    match read_address(&req[4..req.len()], atyp) {
        Err(e) => Err(VpnError::AddrError(e)),
        Ok((target_addr, n)) => Ok((frag, target_addr, &req[4 + n..req.len()])),
    }
}

/// The header of a UDP datagram to a SOCKS5 client: `RSV FRAG` (all zero) and the address.
pub open spec fn udp_header_bytes(m: AddrModel) -> Seq<u8> {
    seq![0u8, 0u8, 0u8] + addr_bytes(m)
}

/// Builds the header of a UDP datagram that comes from `target_addr`.
pub fn new_udp_header(target_addr: &TargetAddr) -> (r: Result<Vec<u8>, VpnError>)
    ensures
        addr_encodable(target_addr@) ==> (r matches Ok(v) && v@ == udp_header_bytes(
            target_addr@,
        )),
        !addr_encodable(target_addr@) ==> (r matches Err(
            VpnError::Socks5Error(Socks5Error::ExceededMaxDomainLen(n)),
        ) && n == domain_len(target_addr@)),
{
    let mut header = vec![0u8, 0u8, 0u8];
    match target_addr.to_be_bytes() {
        Ok(bytes) => {
            push_all(&mut header, bytes.as_slice());
            assert(header@ =~= udp_header_bytes(target_addr@));
            Ok(header)
        },
        Err(e) => Err(VpnError::Socks5Error(e)),
    }
}

/// A datagram built with `new_udp_header` reads back as fragment 0, the same address, and
/// exactly the data that follows the header.
pub proof fn lemma_udp_header_roundtrip(a: TargetAddr, data: Seq<u8>)
    requires
        addr_encodable(a@),
    ensures
        spec_parse_udp_request(udp_header_bytes(a@) + data) == Ok::<(u8, AddrModel, int), VpnError>(
            (0u8, a@, udp_header_bytes(a@).len() as int),
        ),
        (udp_header_bytes(a@) + data).subrange(
            udp_header_bytes(a@).len() as int,
            (udp_header_bytes(a@) + data).len() as int,
        ) == data,
{
    lemma_target_addr_well_formed(a);
    let m = a@;
    let s = udp_header_bytes(m) + data;
    lemma_address_roundtrip(m, data);
    assert(s.subrange(4, s.len() as int) =~= addr_body(m) + data);
    assert(s.subrange(udp_header_bytes(m).len() as int, s.len() as int) =~= data);
}

} // verus!
