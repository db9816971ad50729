//! The message streams of a tunnel. Each message travels as a 4-byte big-endian signed
//! length, then that many bytes: the encoded message, encrypted. Encoding and decoding a
//! message, and moving bytes on the connection, are left to the caller: the writer turns
//! an encoded message into the bytes to send, the reader turns the bytes of one message
//! back into the encoded message.
use vstd::prelude::*;

use crate::crypto::DataCrypt;
use crate::error::{ServiceError, VpnError};
use crate::network::frame::{be_bytes, be_value, lemma_be_roundtrip, push_be_u32};
use crate::util::bytes::push_all;

verus! {

/// The header of a message whose ciphertext has `len` bytes: the length as a signed 32-bit
/// number, that is, cut to its low 32 bits.
pub open spec fn message_header(len: nat) -> u32 {
    (len % 0x1_0000_0000) as u32
}

/// The bytes a ciphertext travels as: its header, then the ciphertext.
pub open spec fn message_bytes(ciphertext: Seq<u8>) -> Seq<u8> {
    be_bytes(message_header(ciphertext.len())) + ciphertext
}

/// The length a header announces, or `None` when it is negative as a signed number.
pub open spec fn announced_len(header: Seq<u8>) -> Option<nat> {
    if be_value(header) >= 0x8000_0000 {
        None
    } else {
        Some(be_value(header) as nat)
    }
}

/// A whole message is at the front of `buf`: a header of a non-negative length and all
/// the bytes it announces.
pub open spec fn message_complete(buf: Seq<u8>) -> bool {
    &&& buf.len() >= 4
    &&& announced_len(buf.subrange(0, 4)) matches Some(n)
    &&& 4 + n <= buf.len()
}

/// The ciphertext of the message at the front of `buf`.
pub open spec fn message_body(buf: Seq<u8>) -> Seq<u8> {
    buf.subrange(4, 4 + be_value(buf.subrange(0, 4)))
}

/// Reads the length that the first four bytes announce: `None` when it is negative (a
/// reader that allocates that many bytes cannot go on).
pub fn message_len(header: &[u8]) -> (r: Option<usize>)
    requires
        header@.len() >= 4,
    ensures
        r == match announced_len(header@.subrange(0, 4)) {
            Some(n) => Some(n as usize),
            None => None::<usize>,
        },
{
    let value = (header[0] as u32) * 0x100_0000 + (header[1] as u32) * 0x1_0000 + (header[2] as u32)
        * 0x100 + (header[3] as u32);
    assert(header@.subrange(0, 4) =~= seq![header@[0], header@[1], header@[2], header@[3]]);
    if value >= 0x8000_0000 {
        None
    } else {
        Some(value as usize)
    }
}

/// The writing half of a tunnel's connection, with the encryption of its messages.
pub struct ProstWriteStream<T, C> {
    pub inner: T,
    pub crypt: C,
}

impl<T, C: DataCrypt> ProstWriteStream<T, C> {
    pub fn new(stream: T, crypt: C) -> (r: Self)
        ensures
            r.inner == stream,
            r.crypt == crypt,
    {
        Self { inner: stream, crypt }
    }

    /// The bytes to send for an encoded message: its ciphertext with the header in front,
    /// or the encryption's error.
    pub fn send(&self, encoded: &[u8]) -> (r: Result<Vec<u8>, VpnError>)
        ensures
            match self.crypt.encrypt_spec(encoded@) {
                Some(c) => r matches Ok(v) && v@ == message_bytes(c),
                None => r == Err::<Vec<u8>, VpnError>(VpnError::EncryptError),
            },
    {
        let ciphertext = self.crypt.encrypt(encoded)?;
        let mut out: Vec<u8> = Vec::new();
        push_be_u32(&mut out, (ciphertext.len() as u64 % 0x1_0000_0000) as u32);
        push_all(&mut out, ciphertext.as_slice());
        Ok(out)
    }
}

/// The reading half of a tunnel's connection, with the encryption of its messages.
pub struct ProstReadStream<T, C> {
    pub inner: T,
    pub crypt: C,
}

impl<T, C: DataCrypt> ProstReadStream<T, C> {
    pub fn new(stream: T, crypt: C) -> (r: Self)
        ensures
            r.inner == stream,
            r.crypt == crypt,
    {
        Self { inner: stream, crypt }
    }

    /// Reads the message at the front of `buf`: returns the encoded message and the number
    /// of bytes the message took. A ciphertext that does not decrypt (most likely the key
    /// is wrong) is a `DecryptError`; what the writer made of an encoded message under the
    /// same encryption reads back as that encoded message.
    pub fn next(&self, buf: &[u8]) -> (r: Result<(Vec<u8>, usize), VpnError>)
        requires
            message_complete(buf@),
        ensures
            match self.crypt.decrypt_spec(message_body(buf@)) {
                Some(p) => r matches Ok((v, n)) && v@ == p && n == 4 + message_body(buf@).len(),
                None => r == Err::<(Vec<u8>, usize), VpnError>(
                    VpnError::ServiceError(ServiceError::DecryptError),
                ),
            },
            forall|p: Seq<u8>| #[trigger]
                self.crypt.encrypt_spec(p) == Some(message_body(buf@)) ==> (r matches Ok((v, _))
                    && v@ == p),
    {
        let len = match message_len(buf) {
            Some(n) => n,
            None => return Err(VpnError::ServiceError(ServiceError::DecryptError)),
        };
        assert(be_value(buf@.subrange(0, 4)) == len);
        let body = &buf[4..4 + len];
        assert(body@ =~= message_body(buf@));
        match self.crypt.decrypt(body) {
            Ok(plaintext) => Ok((plaintext, 4 + len)),
            Err(_) => Err(VpnError::ServiceError(ServiceError::DecryptError)),
        }
    }
}

/// What the writer sends for a ciphertext of less than 2 GiB is, whatever follows it, one
/// whole message whose body is exactly that ciphertext.
pub proof fn lemma_message_roundtrip(ciphertext: Seq<u8>, rest: Seq<u8>)
    requires
        ciphertext.len() < 0x8000_0000,
    ensures
        message_complete(message_bytes(ciphertext) + rest),
        message_body(message_bytes(ciphertext) + rest) == ciphertext,
{
    let h = message_header(ciphertext.len());
    let f = message_bytes(ciphertext) + rest;
    assert(f.subrange(0, 4) =~= be_bytes(h));
    lemma_be_roundtrip(h);
    assert(h == ciphertext.len());
    assert(f.subrange(4, 4 + ciphertext.len() as int) =~= ciphertext);
}

} // verus!
