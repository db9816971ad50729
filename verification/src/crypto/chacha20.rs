//! ChaCha20-Poly1305 encryption with one fixed key and nonce.
use vstd::prelude::*;
use vstd::utf8::encode_utf8;

use chacha20poly1305::aead::{Aead, KeyInit};
use chacha20poly1305::{ChaCha20Poly1305, Nonce};

use crate::crypto::gen_pass::{password_ok, process_genpass};
use crate::crypto::DataCrypt;
use crate::error::VpnError;
use crate::util::bytes::string_bytes;

verus! {

/// The ciphertext that ChaCha20-Poly1305 makes of a plaintext under a key and a nonce,
/// with no associated data: the encrypted bytes followed by the 16-byte tag.
pub uninterp spec fn chacha20poly1305_seal(key: Seq<u8>, nonce: Seq<u8>, plaintext: Seq<u8>) -> Seq<u8>;

/// The plaintext that ChaCha20-Poly1305 recovers from a ciphertext under a key and a nonce,
/// or `None` when the tag does not authenticate it.
pub uninterp spec fn chacha20poly1305_open(key: Seq<u8>, nonce: Seq<u8>, ciphertext: Seq<u8>) -> Option<Seq<u8>>;

/// How many 64-byte blocks of keystream a message of `len` bytes takes.
pub open spec fn keystream_blocks(len: int) -> int {
    if len % 64 == 0 {
        len / 64
    } else {
        len / 64 + 1
    }
}

/// A message of `len` bytes fits in the keystream of one nonce: block 0 keys Poly1305 and
/// the block counter is 32 bits wide, so `u32::MAX - 1` blocks are left for the message.
pub open spec fn chacha20poly1305_fits(len: int) -> bool {
    keystream_blocks(len) <= u32::MAX - 1
}

/// The plaintexts this library encrypts: those that fit in the keystream.
pub open spec fn chacha20poly1305_accepts(plaintext: Seq<u8>) -> bool {
    chacha20poly1305_fits(plaintext.len() as int)
}

/// Whether a message of `len` bytes fits in the keystream of one nonce.
fn fits_keystream(len: usize) -> (r: bool)
    ensures
        r == chacha20poly1305_fits(len as int),
{
    let n = len as u64;
    let blocks = if n % 64 == 0 {
        n / 64
    } else {
        n / 64 + 1
    };
    blocks <= 0xffff_fffe
}

/// `Aead::encrypt` of `chacha20poly1305` (a `ChaCha20Poly1305` made by `new_from_slice`),
/// on a plaintext that fits in the keystream (on a longer one the crate's own size check,
/// `len / 64 < u32::MAX`, lets some through and the keystream then panics). Claims: it
/// succeeds, and the ciphertext is the named seal of key, nonce and plaintext, 16 bytes
/// longer.
#[verifier::external_body]
fn seal(key: &[u8; 32], nonce: &[u8; 12], plaintext: &[u8]) -> (r: Option<Vec<u8>>)
    requires
        chacha20poly1305_accepts(plaintext@),
    ensures
        match r {
            Some(c) => c@ == chacha20poly1305_seal(key@, nonce@, plaintext@) && c@.len()
                == plaintext@.len() + 16,
            None => false,
        },
{
    let cipher = ChaCha20Poly1305::new_from_slice(key).ok()?;
    cipher.encrypt(Nonce::from_slice(nonce), plaintext).ok()
}

/// `Aead::decrypt` of `chacha20poly1305` (a `ChaCha20Poly1305` made by `new_from_slice`),
/// on a ciphertext shorter than its tag or whose body fits in the keystream (on a longer
/// one with a valid tag the keystream panics). Claims: the result is the named open of
/// key, nonce and ciphertext; a ciphertext shorter than its tag is refused; and a
/// ciphertext that sealing made under the same key and nonce opens to its plaintext.
#[verifier::external_body]
fn open(key: &[u8; 32], nonce: &[u8; 12], ciphertext: &[u8]) -> (r: Option<Vec<u8>>)
    requires
        ciphertext@.len() < 16 || chacha20poly1305_fits(ciphertext@.len() - 16),
    ensures
        match r {
            Some(v) => chacha20poly1305_open(key@, nonce@, ciphertext@) == Some(v@)
                && ciphertext@.len() >= 16,
            None => chacha20poly1305_open(key@, nonce@, ciphertext@) is None,
        },
        match r {
            Some(v) => forall|p: Seq<u8>|
                chacha20poly1305_accepts(p) && ciphertext@ == #[trigger] chacha20poly1305_seal(
                    key@,
                    nonce@,
                    p,
                ) ==> v@ == p,
            None => forall|p: Seq<u8>|
                chacha20poly1305_accepts(p) ==> ciphertext@ != #[trigger] chacha20poly1305_seal(
                    key@,
                    nonce@,
                    p,
                ),
        },
{
    let cipher = ChaCha20Poly1305::new_from_slice(key).ok()?;
    cipher.decrypt(Nonce::from_slice(nonce), ciphertext).ok()
}

/// ChaCha20-Poly1305 with a 32-byte key and a 12-byte nonce.
#[derive(Clone, Copy)]
pub struct EncryptChaCha20 {
    key: [u8; 32],
    nonce: [u8; 12],
}

impl EncryptChaCha20 {
    pub closed spec fn key_bytes(&self) -> Seq<u8> {
        self.key@
    }

    pub closed spec fn nonce_bytes(&self) -> Seq<u8> {
        self.nonce@
    }

    pub fn new(key: [u8; 32], nonce: [u8; 12]) -> (r: Self)
        ensures
            r.key_bytes() == key@,
            r.nonce_bytes() == nonce@,
    {
        Self { key, nonce }
    }

    /// The cipher whose key is the first 32 bytes and whose nonce is the next 12.
    pub fn try_new(key_and_nonce: &[u8]) -> (r: Result<Self, VpnError>)
        requires
            key_and_nonce@.len() >= 44,
        ensures
            r matches Ok(c) && c.key_bytes() == key_and_nonce@.subrange(0, 32) && c.nonce_bytes()
                == key_and_nonce@.subrange(32, 44),
    {
        let k = key_and_nonce;
        let key: [u8; 32] = [
            k[0], k[1], k[2], k[3], k[4], k[5], k[6], k[7], k[8], k[9], k[10], k[11], k[12], k[13],
            k[14], k[15], k[16], k[17], k[18], k[19], k[20], k[21], k[22], k[23], k[24], k[25],
            k[26], k[27], k[28], k[29], k[30], k[31],
        ];
        let nonce: [u8; 12] = [
            k[32], k[33], k[34], k[35], k[36], k[37], k[38], k[39], k[40], k[41], k[42], k[43],
        ];
        assert(key@ =~= key_and_nonce@.subrange(0, 32));
        assert(nonce@ =~= key_and_nonce@.subrange(32, 44));
        Ok(Self::new(key, nonce))
    }

    /// The key file that holds a password: its name and the password's bytes.
    pub fn key_file(password: &String) -> (r: Vec<(&'static str, Vec<u8>)>)
        ensures
            r@.len() == 1,
            r@[0].0@ == "chacha20.txt"@,
            r@[0].1@ == encode_utf8(password@),
    {
        let bytes = string_bytes(password);
        let mut content: Vec<u8> = Vec::new();
        crate::util::bytes::push_all(&mut content, bytes);
        let mut files: Vec<(&'static str, Vec<u8>)> = Vec::new();
        files.push(("chacha20.txt", content));
        files
    }

    /// A new key file: its name and a fresh random password of 44 characters (32 for the
    /// key, 12 for the nonce) drawn from all four character classes.
    pub fn generate() -> (r: Result<Vec<(&'static str, Vec<u8>)>, VpnError>)
        ensures
            r matches Ok(files) && files@.len() == 1 && files@[0].0@ == "chacha20.txt"@
                && password_ok(files@[0].1@, 44, true, true, true, true),
    {
        let key = process_genpass(44, true, true, true, true)?;
        Ok(Self::key_file(&key))
    }
}

impl DataCrypt for EncryptChaCha20 {
    /// The seal of a plaintext that fits in the keystream (a seal is always the plaintext
    /// and its 16-byte tag, which `seal` states).
    open spec fn encrypt_spec(&self, plaintext: Seq<u8>) -> Option<Seq<u8>> {
        let c = chacha20poly1305_seal(self.key_bytes(), self.nonce_bytes(), plaintext);
        if chacha20poly1305_accepts(plaintext) && c.len() == plaintext.len() + 16 {
            Some(c)
        } else {
            None
        }
    }

    /// Nothing for a ciphertext whose body is too long for the keystream; otherwise the
    /// open of the ciphertext.
    open spec fn decrypt_spec(&self, ciphertext: Seq<u8>) -> Option<Seq<u8>> {
        if ciphertext.len() >= 16 && !chacha20poly1305_fits(ciphertext.len() - 16) {
            None
        } else {
            chacha20poly1305_open(self.key_bytes(), self.nonce_bytes(), ciphertext)
        }
    }

    /// The ciphertext is the plaintext's length plus the 16-byte Poly1305 tag; a plaintext
    /// too long for the keystream is refused.
    fn encrypt(&self, buf: &[u8]) -> (r: Result<Vec<u8>, VpnError>)
        ensures
            r matches Ok(v) ==> v@.len() == buf@.len() + 16,
            chacha20poly1305_accepts(buf@) ==> (r matches Ok(v) && v@ == chacha20poly1305_seal(
                self.key_bytes(),
                self.nonce_bytes(),
                buf@,
            )),
            !chacha20poly1305_accepts(buf@) ==> r == Err::<Vec<u8>, VpnError>(VpnError::EncryptError),
    {
        if !fits_keystream(buf.len()) {
            return Err(VpnError::EncryptError);
        }
        match seal(&self.key, &self.nonce, buf) {
            Some(ciphertext) => Ok(ciphertext),
            None => Err(VpnError::EncryptError),
        }
    }

    /// A ciphertext shorter than its 16-byte tag, or whose body is too long for the
    /// keystream, is refused.
    fn decrypt(&self, buf: &[u8]) -> (r: Result<Vec<u8>, VpnError>)
        ensures
            buf@.len() < 16 ==> r == Err::<Vec<u8>, VpnError>(VpnError::DecryptError),
            (buf@.len() < 16 || chacha20poly1305_fits(buf@.len() - 16)) ==> match chacha20poly1305_open(
                self.key_bytes(),
                self.nonce_bytes(),
                buf@,
            ) {
                Some(p) => r matches Ok(v) && v@ == p,
                None => r == Err::<Vec<u8>, VpnError>(VpnError::DecryptError),
            },
            !(buf@.len() < 16 || chacha20poly1305_fits(buf@.len() - 16)) ==> r == Err::<
                Vec<u8>,
                VpnError,
            >(VpnError::DecryptError),
    {
        if buf.len() >= 16 && !fits_keystream(buf.len() - 16) {
            return Err(VpnError::DecryptError);
        }
        match open(&self.key, &self.nonce, buf) {
            Some(plaintext) => Ok(plaintext),
            None => Err(VpnError::DecryptError),
        }
    }
}

/// A cipher made from a key and a nonce (as `new` and `try_new` make it) seals with exactly that key and that nonce, and
/// opens with the same two: what it encrypts is the ChaCha20-Poly1305 seal under its own
/// key and nonce, and what it decrypts (within the keystream) is the open under them.
pub proof fn lemma_cipher_uses_its_key_and_nonce(
    cipher: EncryptChaCha20,
    key: [u8; 32],
    nonce: [u8; 12],
    plaintext: Seq<u8>,
    ciphertext: Seq<u8>,
)
    requires
        cipher.key_bytes() == key@,
        cipher.nonce_bytes() == nonce@,
    ensures
        cipher.encrypt_spec(plaintext) matches Some(c) ==> c
            == chacha20poly1305_seal(key@, nonce@, plaintext),
        !chacha20poly1305_accepts(plaintext) ==> cipher.encrypt_spec(
            plaintext,
        ) is None,
        (ciphertext.len() < 16 || chacha20poly1305_fits(ciphertext.len() - 16))
            ==> cipher.decrypt_spec(ciphertext)
            == chacha20poly1305_open(key@, nonce@, ciphertext),
{
}

} // verus!
