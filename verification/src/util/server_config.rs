//! The settings of the server.
use vstd::prelude::*;

verus! {

/// Where the server listens and how it decrypts frames.
pub struct ServerConfig {
    /// The port of the listener.
    pub port: u16,
    /// The file that holds the key and nonce of the frame encryption.
    pub crypt_file: Option<String>,
}

} // verus!
