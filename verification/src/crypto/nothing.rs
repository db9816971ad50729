//! No encryption: frames travel as they are.
use vstd::prelude::*;

use crate::crypto::DataCrypt;
use crate::error::VpnError;
use crate::util::bytes::push_all;

verus! {

/// No encryption at all.
#[derive(Clone, Copy)]
pub struct Nothing;

impl DataCrypt for Nothing {
    open spec fn encrypt_spec(&self, plaintext: Seq<u8>) -> Option<Seq<u8>> {
        Some(plaintext)
    }

    open spec fn decrypt_spec(&self, ciphertext: Seq<u8>) -> Option<Seq<u8>> {
        Some(ciphertext)
    }

    fn encrypt(&self, buf: &[u8]) -> (r: Result<Vec<u8>, VpnError>) {
        let mut out: Vec<u8> = Vec::new();
        push_all(&mut out, buf);
        Ok(out)
    }

    fn decrypt(&self, buf: &[u8]) -> (r: Result<Vec<u8>, VpnError>) {
        let mut out: Vec<u8> = Vec::new();
        push_all(&mut out, buf);
        Ok(out)
    }
}

/// Without encryption, decrypting what was encrypted gives it back.
pub proof fn lemma_nothing_roundtrip(n: Nothing, plaintext: Seq<u8>)
    ensures
        n.encrypt_spec(plaintext) matches Some(c) && n.decrypt_spec(c) == Some(plaintext),
{
}

} // verus!
