//! A SOCKS5 proxy tunnel: the wire formats, handshake decisions, frame codec,
//! payload encryption and message routing of the client and server sides.

pub mod communicate;
pub mod crypto;
pub mod error;
pub mod network;
pub mod outside;
pub mod pb;
pub mod service;
pub mod socks5;
pub mod tunnel;
pub mod util;

pub use error::{AddrError, ServiceError, Socks5Error, Socks5Field, StreamError, VpnError};
