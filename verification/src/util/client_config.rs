//! The settings of the client (the local SOCKS5 server).
use vstd::prelude::*;

use crate::socks5::command::consts::{SOCKS5_AUTH_METHOD_NONE, SOCKS5_AUTH_METHOD_PASSWORD};

verus! {

/// How the client runs: the SOCKS5 authentication it demands, where it listens, and
/// the server it tunnels to.
pub struct ClientConfig {
    pub auth_type: AuthType,
    /// The port of the local SOCKS5 listener.
    pub port: u16,
    /// Whether domains are resolved by the local DNS server.
    pub dns_resolve: bool,
    /// The server, as `IP:PORT`.
    pub server_url: String,
    /// How many tunnels to open to the server.
    pub tunnel_cnt: Option<u32>,
    /// The file that holds the key and nonce of the frame encryption.
    pub crypt_file: Option<String>,
}

/// The authentication that the local SOCKS5 server demands.
#[derive(Debug)]
pub enum AuthType {
    NoAuth,
    Auth(AuthInfo),
}

/// A username and a password.
#[derive(Debug)]
pub struct AuthInfo {
    pub username: String,
    pub password: String,
}

/// The SOCKS5 method code of an authentication kind.
pub open spec fn auth_method_code(auth: AuthType) -> u8 {
    match auth {
        AuthType::NoAuth => SOCKS5_AUTH_METHOD_NONE,
        AuthType::Auth(_) => SOCKS5_AUTH_METHOD_PASSWORD,
    }
}

impl AuthType {
    pub fn as_u8(&self) -> (code: u8)
        ensures
            code == auth_method_code(*self),
    {
        match self {
            AuthType::NoAuth => SOCKS5_AUTH_METHOD_NONE,
            AuthType::Auth(_) => SOCKS5_AUTH_METHOD_PASSWORD,
        }
    }

    /// The authentication kind of a method code; the password kind comes with the
    /// default credentials `admin` / `password`.
    pub fn from_u8(code: u8) -> (r: Option<AuthType>)
        ensures
            code == SOCKS5_AUTH_METHOD_NONE ==> r == Some(AuthType::NoAuth),
            code == SOCKS5_AUTH_METHOD_PASSWORD ==> (r matches Some(AuthType::Auth(info))
                && info.username@ == "admin"@ && info.password@ == "password"@),
            code != SOCKS5_AUTH_METHOD_NONE && code != SOCKS5_AUTH_METHOD_PASSWORD ==> r is None,
    {
        if code == SOCKS5_AUTH_METHOD_NONE {
            Some(AuthType::NoAuth)
        } else if code == SOCKS5_AUTH_METHOD_PASSWORD {
            Some(AuthType::Auth(AuthInfo { username: "admin".to_owned(), password: "password".to_owned() }))
        } else {
            None
        }
    }

    /// The name of the authentication kind, as the client prints it.
    pub fn to_display_string(&self) -> (s: String)
        ensures
            *self is NoAuth ==> s@ == "AuthType::NoAuth"@,
            *self is Auth ==> s@ == "AuthType::Auth"@,
    {
        match self {
            AuthType::NoAuth => "AuthType::NoAuth".to_owned(),
            AuthType::Auth(_) => "AuthType::Auth".to_owned(),
        }
    }
}

} // verus!
