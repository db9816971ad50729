//! The commands of a client request.
use vstd::prelude::*;

use super::{Data, TcpConnect, UdpData};

verus! {

#[derive(Debug)]
pub enum Command {
    TcpConnect(TcpConnect),
    UdpAssociate(u32),
    ClosePort(u32),
    Data(Data),
    UdpData(UdpData),
    Heartbeat(i32),
}

} // verus!
