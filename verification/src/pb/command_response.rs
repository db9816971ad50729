//! The responses of the server.
use vstd::prelude::*;

use super::{Data, TcpConnectSuccess, UdpData};

verus! {

#[derive(Debug)]
pub enum Response {
    Data(Data),
    UdpData(UdpData),
    TcpConnectSuccess(TcpConnectSuccess),
    TcpConnectFailed(u32),
    UdpAssociateSuccess(u32),
    UdpAssociateFailed(u32),
    ClosePort(u32),
    Heartbeat(i32),
}

} // verus!
