//! The tunnel service: ports, the routing of messages on the client and on the server,
//! and the liveness of a tunnel.
pub mod processor;
pub mod streams;
pub mod tunnel;

use vstd::prelude::*;

use std::collections::HashMap;

use crate::util::channel_helper::ChannelSender;

use crate::communicate::server_and_remote::RemoteMsg;
use crate::communicate::socks_and_client::SocksMsg;

verus! {

/// The client's ports: each id to the sender that reaches its SOCKS5 connection.
pub type ClientPortMap = HashMap<u32, ChannelSender<SocksMsg>>;

/// The server's ports: each id to the sender that reaches its remote task.
pub type ServerPortMap = HashMap<u32, ChannelSender<RemoteMsg>>;

/// A tunnel that heard nothing for this long is considered dead.
pub const ALIVE_TIMEOUT_TIME_MS: u64 = 60000;

/// How often the heartbeat ticks.
pub const HEARTBEAT_INTERVAL_MS: u64 = 5000;

/// A remote UDP socket that received nothing for this long (five minutes) is closed.
pub const SERVER_UDP_READ_TIMEOUT_MS: u64 = 300000;

/// Whether a tunnel that heard nothing for `elapsed_nanos` nanoseconds is dead: strictly
/// more than `ALIVE_TIMEOUT_TIME_MS` have passed.
pub fn alive_timeout_exceeded(elapsed_nanos: u128) -> (r: bool)
    ensures
        r == (elapsed_nanos > ALIVE_TIMEOUT_TIME_MS as int * 1_000_000),
{
    elapsed_nanos > (ALIVE_TIMEOUT_TIME_MS as u128) * 1_000_000
}

/// Whether a remote UDP socket that received nothing for `elapsed_nanos` nanoseconds is
/// to be closed: strictly more than `SERVER_UDP_READ_TIMEOUT_MS` have passed.
pub fn udp_read_timeout_exceeded(elapsed_nanos: u128) -> (r: bool)
    ensures
        r == (elapsed_nanos > SERVER_UDP_READ_TIMEOUT_MS as int * 1_000_000),
{
    elapsed_nanos > (SERVER_UDP_READ_TIMEOUT_MS as u128) * 1_000_000
}

} // verus!
