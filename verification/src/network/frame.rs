//! Frames: a 4-byte big-endian header, whose top bit says whether the payload is
//! gzip-compressed and whose other 31 bits give the payload's length, then the payload.
//! Payloads longer than `COMPRESSION_LIMIT` are compressed.
use vstd::prelude::*;

use std::io::{Read, Write};

use flate2::read::GzDecoder;
use flate2::write::GzEncoder;
use flate2::Compression;

use crate::error::{StreamError, VpnError};
use crate::util::bytes::{copy_range, push_all};

verus! {

/// The header takes 4 bytes.
pub const LEN_LEN: usize = 4;

/// The length has 31 bits, so a frame holds less than 2 GiB.
pub const MAX_FRAME: usize = 0x8000_0000;

/// Payloads longer than this are compressed.
pub const COMPRESSION_LIMIT: usize = 1436;

/// The top bit of the header marks a compressed payload.
pub const COMPRESSION_BIT: usize = 0x8000_0000;

/// What `flate2`'s gzip encoder (default level, default header) makes of the bytes.
pub uninterp spec fn gzip_compress(data: Seq<u8>) -> Seq<u8>;

/// `GzEncoder::new(.., Compression::default())`, `write_all` and `finish` of `flate2`,
/// writing into memory. Claims: the output is the named compression of the input; writing
/// into memory does not fail.
#[verifier::external_body]
fn gzip(data: &[u8]) -> (r: Vec<u8>)
    ensures
        r@ == gzip_compress(data@),
{
    let mut encoder = GzEncoder::new(Vec::new(), Compression::default());
    encoder.write_all(data).expect("writing into memory does not fail");
    encoder.finish().expect("writing into memory does not fail")
}

/// `GzDecoder::new` and `read_to_end` of `flate2`, reading from memory. Claims: on anything
/// the gzip encoder made it succeeds and gives back the bytes the encoder was given. What it
/// does with bytes the encoder cannot have made is left unstated.
#[verifier::external_body]
fn gunzip(data: &[u8]) -> (r: Option<Vec<u8>>)
    ensures
        match r {
            Some(v) => forall|x: Seq<u8>| data@ == #[trigger] gzip_compress(x) ==> v@ == x,
            None => forall|x: Seq<u8>| data@ != #[trigger] gzip_compress(x),
        },
{
    let mut decoder = GzDecoder::new(data);
    let mut out = Vec::new();
    match decoder.read_to_end(&mut out) {
        Ok(_) => Some(out),
        Err(_) => None,
    }
}

/// The length and the compression flag of a header.
pub open spec fn header_len(header: usize) -> usize {
    header & !COMPRESSION_BIT
}

pub open spec fn header_compressed(header: usize) -> bool {
    header & COMPRESSION_BIT == COMPRESSION_BIT
}

/// Splits a header into the payload's length and whether it is compressed.
pub fn decode_header(header: usize) -> (r: (usize, bool))
    ensures
        r.0 == header_len(header),
        r.1 == header_compressed(header),
        header < 0x1_0000_0000 ==> r.0 == header % 0x8000_0000 && r.1 == (header >= 0x8000_0000),
{
    let len = header & !COMPRESSION_BIT;
    let compressed = header & COMPRESSION_BIT == COMPRESSION_BIT;
    assert(header < 0x1_0000_0000 ==> (header & !0x8000_0000usize) == header % 0x8000_0000 && ((
    header & 0x8000_0000usize == 0x8000_0000usize) == (header >= 0x8000_0000))) by (bit_vector);
    (len, compressed)
}

/// The header of a payload of `len` bytes: the length, with the top bit set when the
/// payload is compressed, cut to 32 bits.
pub open spec fn header_value(len: int, compressed: bool) -> u32 {
    if compressed {
        (len as usize | COMPRESSION_BIT) as u32
    } else {
        len as u32
    }
}

/// The four big-endian bytes of a header.
pub open spec fn be_bytes(h: u32) -> Seq<u8> {
    seq![(h / 0x100_0000) as u8, ((h / 0x1_0000) % 0x100) as u8, ((h / 0x100) % 0x100) as u8, (h % 0x100) as u8]
}

/// The header that four big-endian bytes hold.
pub open spec fn be_value(b: Seq<u8>) -> u32 {
    (b[0] * 0x100_0000 + b[1] * 0x1_0000 + b[2] * 0x100 + b[3]) as u32
}

/// Four big-endian bytes read back as the header they were made of.
pub proof fn lemma_be_roundtrip(h: u32)
    ensures
        be_value(be_bytes(h)) == h,
{
    let b = be_bytes(h);
    assert(b[0] * 0x100_0000 + b[1] * 0x1_0000 + b[2] * 0x100 + b[3] == h) by (nonlinear_arith)
        requires
            b[0] == h / 0x100_0000,
            b[1] == (h / 0x1_0000) % 0x100,
            b[2] == (h / 0x100) % 0x100,
            b[3] == h % 0x100,
            h < 0x1_0000_0000,
    ;
}

/// Appends the four big-endian bytes of `h`.
pub fn push_be_u32(v: &mut Vec<u8>, h: u32)
    ensures
        final(v)@ == old(v)@ + be_bytes(h),
{
    v.push((h / 0x100_0000) as u8);
    v.push(((h / 0x1_0000) % 0x100) as u8);
    v.push(((h / 0x100) % 0x100) as u8);
    v.push((h % 0x100) as u8);
}

/// The frame of a payload: its header and the payload itself, compressed when it is longer
/// than `COMPRESSION_LIMIT`.
pub open spec fn frame_bytes(payload: Seq<u8>) -> Seq<u8> {
    if payload.len() > COMPRESSION_LIMIT {
        be_bytes(header_value(gzip_compress(payload).len() as int, true)) + gzip_compress(payload)
    } else {
        be_bytes(header_value(payload.len() as int, false)) + payload
    }
}

/// Encodes a payload (an encoded message) as a frame; payloads of 2 GiB or more do not fit.
pub fn encode_frame(payload: &[u8]) -> (r: Result<Vec<u8>, VpnError>)
    ensures
        payload@.len() >= MAX_FRAME ==> r == Err::<Vec<u8>, VpnError>(
            VpnError::StreamError(StreamError::FrameTooLarge),
        ),
        payload@.len() < MAX_FRAME ==> (r matches Ok(v) && v@ == frame_bytes(payload@)),
{
    let size = payload.len();
    if size >= MAX_FRAME {
        return Err(VpnError::StreamError(StreamError::FrameTooLarge));
    }
    let mut buf: Vec<u8> = Vec::new();
    if size > COMPRESSION_LIMIT {
        let compressed = gzip(payload);
        let header = (compressed.len() | COMPRESSION_BIT) as u32;
        push_be_u32(&mut buf, header);
        push_all(&mut buf, compressed.as_slice());
    } else {
        push_be_u32(&mut buf, size as u32);
        push_all(&mut buf, payload);
    }
    Ok(buf)
}

/// The length field of the frame at the front of `buf`.
pub open spec fn frame_payload_len(buf: Seq<u8>) -> usize {
    header_len(be_value(buf.subrange(0, 4)) as usize)
}

/// A whole frame is at the front of `buf`: its header and all the bytes it announces.
pub open spec fn frame_complete(buf: Seq<u8>) -> bool {
    buf.len() >= 4 && 4 + frame_payload_len(buf) <= buf.len()
}

/// Decodes the frame at the front of `buf`: returns its payload (decompressed when the
/// header says so) and the number of bytes the frame took.
pub fn decode_frame(buf: &[u8]) -> (r: Result<(Vec<u8>, usize), VpnError>)
    requires
        frame_complete(buf@),
    ensures
        ({
            let len = frame_payload_len(buf@) as int;
            let body = buf@.subrange(4, 4 + len);
            if header_compressed(be_value(buf@.subrange(0, 4)) as usize) {
                match r {
                    Ok((p, n)) => n == 4 + len && forall|x: Seq<u8>| body == #[trigger] gzip_compress(x) ==> p@ == x,
                    Err(e) => e == VpnError::StreamError(StreamError::InvalidCompression) && forall|x: Seq<u8>| body != #[trigger] gzip_compress(x),
                }
            } else {
                r matches Ok((p, n)) && p@ == body && n == 4 + len
            }
        }),
{
    let header = ((buf[0] as u32) * 0x100_0000 + (buf[1] as u32) * 0x1_0000 + (buf[2] as u32) * 0x100
        + (buf[3] as u32)) as usize;
    assert(buf@.subrange(0, 4) =~= seq![buf@[0], buf@[1], buf@[2], buf@[3]]);
    let (len, compressed) = decode_header(header);
    if compressed {
        match gunzip(&buf[4..4 + len]) {
            Some(payload) => Ok((payload, 4 + len)),
            None => Err(VpnError::StreamError(StreamError::InvalidCompression)),
        }
    } else {
        let payload = copy_range(buf, 4, 4 + len);
        Ok((payload, 4 + len))
    }
}

/// A frame decodes back to its payload, from exactly its own bytes, whatever follows it.
pub proof fn lemma_frame_roundtrip(payload: Seq<u8>, rest: Seq<u8>)
    requires
        payload.len() < MAX_FRAME,
        payload.len() > COMPRESSION_LIMIT ==> gzip_compress(payload).len() < MAX_FRAME,
    ensures
        ({
            let f = frame_bytes(payload) + rest;
            let len = frame_payload_len(f) as int;
            &&& frame_complete(f)
            &&& 4 + len == frame_bytes(payload).len()
            &&& f.subrange(4, 4 + len) == if payload.len() > COMPRESSION_LIMIT {
                gzip_compress(payload)
            } else {
                payload
            }
            &&& header_compressed(be_value(f.subrange(0, 4)) as usize) == (payload.len()
                > COMPRESSION_LIMIT)
        }),
{
    let compressed = payload.len() > COMPRESSION_LIMIT;
    let body = if compressed { gzip_compress(payload) } else { payload };
    let h = header_value(body.len() as int, compressed);
    let f = frame_bytes(payload) + rest;
    assert(frame_bytes(payload) == be_bytes(h) + body);
    assert(f.subrange(0, 4) =~= be_bytes(h));
    lemma_be_roundtrip(h);
    let bl = body.len() as usize;
    assert(bl < 0x8000_0000);
    if compressed {
        assert(((bl | 0x8000_0000usize) as u32) as usize & !0x8000_0000usize == bl && ((((bl
            | 0x8000_0000usize) as u32) as usize) & 0x8000_0000usize) == 0x8000_0000usize)
            by (bit_vector)
            requires
                bl < 0x8000_0000usize,
        ;
    } else {
        assert(((bl as u32) as usize) & !0x8000_0000usize == bl && (((bl as u32) as usize)
            & 0x8000_0000usize) != 0x8000_0000usize) by (bit_vector)
            requires
                bl < 0x8000_0000usize,
        ;
    }
    assert(f.subrange(4, 4 + bl as int) =~= body);
}

} // verus!
