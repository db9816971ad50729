//! SOCKS5 commands.
pub mod consts;

use vstd::prelude::*;

use self::consts::{SOCKS5_CMD_TCP_BIND, SOCKS5_CMD_TCP_CONNECT, SOCKS5_CMD_UDP_ASSOCIATE};

verus! {

/// The command of a SOCKS5 request.
#[derive(Debug, Clone, Copy, PartialEq, Eq, Structural)]
pub enum Socks5Command {
    TCPConnect,
    TCPBind,
    UDPAssociate,
}

/// The code of each command.
pub open spec fn command_code(cmd: Socks5Command) -> u8 {
    match cmd {
        Socks5Command::TCPConnect => SOCKS5_CMD_TCP_CONNECT,
        Socks5Command::TCPBind => SOCKS5_CMD_TCP_BIND,
        Socks5Command::UDPAssociate => SOCKS5_CMD_UDP_ASSOCIATE,
    }
}

/// The command that a code names, if any.
pub open spec fn command_of_code(code: u8) -> Option<Socks5Command> {
    if code == SOCKS5_CMD_TCP_CONNECT {
        Some(Socks5Command::TCPConnect)
    } else if code == SOCKS5_CMD_TCP_BIND {
        Some(Socks5Command::TCPBind)
    } else if code == SOCKS5_CMD_UDP_ASSOCIATE {
        Some(Socks5Command::UDPAssociate)
    } else {
        None
    }
}

impl Socks5Command {
    pub fn as_u8(&self) -> (code: u8)
        ensures
            code == command_code(*self),
    {
        match self {
            Socks5Command::TCPConnect => SOCKS5_CMD_TCP_CONNECT,
            Socks5Command::TCPBind => SOCKS5_CMD_TCP_BIND,
            Socks5Command::UDPAssociate => SOCKS5_CMD_UDP_ASSOCIATE,
        }
    }

    pub fn from_u8(code: u8) -> (cmd: Option<Socks5Command>)
        ensures
            cmd == command_of_code(code),
    {
        if code == SOCKS5_CMD_TCP_CONNECT {
            Some(Socks5Command::TCPConnect)
        } else if code == SOCKS5_CMD_TCP_BIND {
            Some(Socks5Command::TCPBind)
        } else if code == SOCKS5_CMD_UDP_ASSOCIATE {
            Some(Socks5Command::UDPAssociate)
        } else {
            None
        }
    }
}

/// Decoding a command's code gives the command back, and only the three codes decode.
pub proof fn lemma_command_code_roundtrip(cmd: Socks5Command, code: u8)
    ensures
        command_of_code(command_code(cmd)) == Some(cmd),
        command_of_code(code) matches Some(c) ==> command_code(c) == code,
{
}

} // verus!
