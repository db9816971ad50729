//! The frame codec of the stream between client and server.
pub mod frame;

pub use frame::{decode_frame, decode_header, encode_frame};
