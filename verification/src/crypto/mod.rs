//! Encryption of the frames of a tunnel.
pub mod chacha20;
pub mod gen_pass;
pub mod nothing;

use vstd::prelude::*;

use crate::error::VpnError;

pub use chacha20::EncryptChaCha20;
pub use gen_pass::process_genpass;
pub use nothing::Nothing;

verus! {

/// A way of encrypting the payload of a frame.
pub trait DataCrypt: Sized {
    /// The ciphertext of `plaintext`, or `None` when it cannot be encrypted.
    spec fn encrypt_spec(&self, plaintext: Seq<u8>) -> Option<Seq<u8>>;

    /// The plaintext of `ciphertext`, or `None` when it cannot be decrypted.
    spec fn decrypt_spec(&self, ciphertext: Seq<u8>) -> Option<Seq<u8>>;

    /// Encrypt the data and return the ciphertext.
    fn encrypt(&self, buf: &[u8]) -> (r: Result<Vec<u8>, VpnError>)
        ensures
            match self.encrypt_spec(buf@) {
                Some(c) => r matches Ok(v) && v@ == c,
                None => r == Err::<Vec<u8>, VpnError>(VpnError::EncryptError),
            },
    ;

    /// Decrypt the data and return the plaintext. What `encrypt` made of a plaintext
    /// decrypts back to that plaintext.
    fn decrypt(&self, buf: &[u8]) -> (r: Result<Vec<u8>, VpnError>)
        ensures
            match self.decrypt_spec(buf@) {
                Some(p) => r matches Ok(v) && v@ == p,
                None => r == Err::<Vec<u8>, VpnError>(VpnError::DecryptError),
            },
            forall|p: Seq<u8>| #[trigger] self.encrypt_spec(p) == Some(buf@) ==> (r matches Ok(v)
                && v@ == p),
    ;
}

/// The encryption a tunnel uses: ChaCha20-Poly1305 with a configured key, or none.
#[derive(Clone, Copy)]
pub enum Crypt {
    ChaCha20(EncryptChaCha20),
    Nothing(Nothing),
}

impl DataCrypt for Crypt {
    open spec fn encrypt_spec(&self, plaintext: Seq<u8>) -> Option<Seq<u8>> {
        match self {
            Crypt::ChaCha20(c) => c.encrypt_spec(plaintext),
            Crypt::Nothing(n) => n.encrypt_spec(plaintext),
        }
    }

    open spec fn decrypt_spec(&self, ciphertext: Seq<u8>) -> Option<Seq<u8>> {
        match self {
            Crypt::ChaCha20(c) => c.decrypt_spec(ciphertext),
            Crypt::Nothing(n) => n.decrypt_spec(ciphertext),
        }
    }

    fn encrypt(&self, buf: &[u8]) -> (r: Result<Vec<u8>, VpnError>) {
        match self {
            Crypt::ChaCha20(c) => c.encrypt(buf),
            Crypt::Nothing(n) => n.encrypt(buf),
        }
    }

    fn decrypt(&self, buf: &[u8]) -> (r: Result<Vec<u8>, VpnError>) {
        match self {
            Crypt::ChaCha20(c) => c.decrypt(buf),
            Crypt::Nothing(n) => n.decrypt(buf),
        }
    }
}

/// The encryption that the content of a key file selects: ChaCha20-Poly1305 keyed with its
/// first 44 bytes (key, then nonce) when there is a file, none otherwise.
pub fn get_crypt(key_content: &Option<Vec<u8>>) -> (r: Result<Crypt, VpnError>)
    requires
        key_content matches Some(k) ==> k@.len() >= 44,
    ensures
        match key_content {
            Some(k) => r matches Ok(Crypt::ChaCha20(c)) && c.key_bytes() == k@.subrange(0, 32)
                && c.nonce_bytes() == k@.subrange(32, 44),
            None => r matches Ok(Crypt::Nothing(_)),
        },
{
    match key_content {
        Some(key) => {
            let crypt = EncryptChaCha20::try_new(key.as_slice())?;
            Ok(Crypt::ChaCha20(crypt))
        },
        None => Ok(Crypt::Nothing(Nothing)),
    }
}

} // verus!
