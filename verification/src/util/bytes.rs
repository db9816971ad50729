//! Byte and text helpers shared by the wire formats.
use vstd::prelude::*;
use vstd::utf8::{encode_utf8, valid_utf8};

verus! {

/// The two big-endian bytes of a port number.
pub open spec fn port_bytes(port: u16) -> Seq<u8> {
    seq![(port / 256) as u8, (port % 256) as u8]
}

/// The port number whose big-endian bytes are `hi`, `lo`.
pub open spec fn port_from_bytes(hi: u8, lo: u8) -> u16 {
    (hi * 256 + lo) as u16
}

/// Reading back the bytes of a port gives the port.
pub proof fn lemma_port_roundtrip(port: u16)
    ensures
        port_from_bytes(port_bytes(port)[0], port_bytes(port)[1]) == port,
{
}

/// Appends every byte of `s` to `v`.
pub fn push_all(v: &mut Vec<u8>, s: &[u8])
    ensures
        final(v)@ == old(v)@ + s@,
{
    let mut i: usize = 0;
    while i < s.len()
        invariant
            i <= s@.len(),
            v@ == old(v)@ + s@.subrange(0, i as int),
        decreases s@.len() - i,
    {
        v.push(s[i]);
        i = i + 1;
        assert(s@.subrange(0, i as int) =~= s@.subrange(0, i - 1) + seq![s@[i - 1]]);
    }
    assert(s@.subrange(0, s@.len() as int) =~= s@);
}

/// Appends the big-endian bytes of `port` to `v`.
pub fn push_port(v: &mut Vec<u8>, port: u16)
    ensures
        final(v)@ == old(v)@ + port_bytes(port),
{
    v.push((port / 256) as u8);
    v.push((port % 256) as u8);
}

/// Reads the big-endian port at `buf[at]`, `buf[at + 1]`.
pub fn read_port(buf: &[u8], at: usize) -> (port: u16)
    requires
        at + 2 <= buf@.len(),
    ensures
        port == port_from_bytes(buf@[at as int], buf@[at + 1]),
{
    (buf[at] as u16) * 256 + (buf[at + 1] as u16)
}

/// A copy of `buf[start..end]`.
pub fn copy_range(buf: &[u8], start: usize, end: usize) -> (v: Vec<u8>)
    requires
        start <= end <= buf@.len(),
    ensures
        v@ == buf@.subrange(start as int, end as int),
{
    let mut v: Vec<u8> = Vec::new();
    push_all(&mut v, &buf[start..end]);
    v
}

/// `String::from_utf8` of std: the bytes as a string when they are UTF-8.
/// Claims that it succeeds exactly on valid UTF-8, and that the string's
/// UTF-8 encoding is the input.
#[verifier::external_body]
pub(crate) fn string_from_utf8(bytes: Vec<u8>) -> (s: Option<String>)
    ensures
        s is Some <==> valid_utf8(bytes@),
        s matches Some(s) ==> encode_utf8(s@) == bytes@,
{
    String::from_utf8(bytes).ok()
}

/// The UTF-8 bytes of a string.
pub fn string_bytes(s: &String) -> (b: &[u8])
    ensures
        b@ == encode_utf8(s@),
{
    s.as_str().as_bytes()
}

} // verus!
