//! One tunnel of the client: it hands out ports, each with its own id.
use vstd::prelude::*;

use crate::util::channel_helper::ChannelSender;

use crate::communicate::socks_and_client::{ClientMsg, Socks5ToClientMsg, SocksMsg};
use crate::service::tunnel::tunnel_read::TunnelReader;
use crate::service::tunnel::tunnel_write::TunnelWriter;
use crate::util::channel_helper::{
    bounded_channel, bus_chans, channel_bus, clone_sender, Receivers, SubSenders,
};

verus! {

/// How many messages a port's channel holds.
pub const PORT_CHANNEL_BUFFER: usize = 1000;

/// A tunnel of the client: the id the next port gets, the senders its ports write to in
/// turn, and the main sender of the tunnel's writer.
pub struct Tunnel {
    connect_id: u32,
    senders: SubSenders<ClientMsg>,
    main_sender: ChannelSender<ClientMsg>,
}

impl Tunnel {
    /// A tunnel whose first port gets id 0.
    pub fn new(senders: SubSenders<ClientMsg>, main_sender: ChannelSender<ClientMsg>) -> (t: Self)
        requires
            senders.wf(),
        ensures
            t.next_id() == 0,
            t.wf(),
            t.main_tx() == main_sender,
            t.bus() == senders,
    {
        Tunnel { connect_id: 0, senders, main_sender }
    }

    /// The id the next port gets.
    pub closed spec fn next_id(&self) -> u32 {
        self.connect_id
    }

    /// The main sender of the tunnel's writer.
    pub closed spec fn main_tx(&self) -> ChannelSender<ClientMsg> {
        self.main_sender
    }

    /// The sub-senders its ports write to in turn.
    pub closed spec fn bus(&self) -> SubSenders<ClientMsg> {
        self.senders
    }

    pub closed spec fn wf(&self) -> bool {
        self.senders.wf()
    }

    /// The id the next port gets.
    pub fn connect_id(&self) -> (id: u32)
        ensures
            id == self.next_id(),
    {
        self.connect_id
    }

    /// The main sender of the tunnel's writer, on which the message that opens a port goes.
    pub fn main_sender(&self) -> (s: &ChannelSender<ClientMsg>)
        ensures
            *s == self.main_tx(),
    {
        &self.main_sender
    }

    /// Opens the next port: returns the message that registers it with the tunnel's
    /// writer (to be sent on the main sender), and its two halves. The bus moves on to its
    /// next sub-sender; both halves carry the new id and write into that sub-sender's
    /// channel; the registration holds a sender into the reading half's channel.
    pub fn generate(&mut self) -> (r: (
        ClientMsg,
        TunnelWriter<ClientMsg>,
        TunnelReader<ClientMsg, SocksMsg>,
    ))
        requires
            old(self).wf(),
            old(self).next_id() < u32::MAX,
        ensures
            final(self).wf(),
            final(self).next_id() == old(self).next_id() + 1,
            final(self).main_tx() == old(self).main_tx(),
            final(self).bus().senders() == old(self).bus().senders(),
            final(self).bus().last() == (old(self).bus().last() + 1) % (old(
                self,
            ).bus().senders().len() as int),
            r.0 matches ClientMsg::Socks5ToClient(Socks5ToClientMsg::InitChannel(id, tx)) && id
                == old(self).next_id() && tx.buffer() == PORT_CHANNEL_BUFFER && (r.2.rx matches Some(
                rx,
            ) && rx.chan() == tx.chan()),
            r.1.id == old(self).next_id(),
            r.2.id == old(self).next_id(),
            r.1.tx.chan() == final(self).bus().senders()[final(self).bus().last()].chan(),
            r.2.tx.chan() == final(self).bus().senders()[final(self).bus().last()].chan(),
    {
        let connect_id = self.connect_id;
        self.connect_id = self.connect_id + 1;

        let (tx, rx) = bounded_channel(PORT_CHANNEL_BUFFER);
        let init = ClientMsg::Socks5ToClient(Socks5ToClientMsg::InitChannel(connect_id, tx));

        let sender = self.senders.get_one_sender();
        let writer_tx = clone_sender(&sender);
        (
            init,
            TunnelWriter { id: connect_id, tx: writer_tx },
            TunnelReader { id: connect_id, tx: sender, rx: Some(rx) },
        )
    }
}

/// How many sub-channels the bus of a client tunnel has.
pub const TUNNEL_BUS_NUM: usize = 10;

/// How many messages each channel of a client tunnel's bus holds.
pub const TUNNEL_BUS_BUFFER: usize = 1000;

/// A new tunnel of the client over its own bus: the tunnel, whose first port gets id 0,
/// the receivers of the bus, which merge its main channel and every sub-channel and which
/// the task that talks to the server reads, and another main sender for that task, into the
/// same channel as the tunnel's.
pub fn tunnel_bus() -> (r: (Tunnel, Receivers<ClientMsg>, ChannelSender<ClientMsg>))
    ensures
        r.0.next_id() == 0,
        r.0.wf(),
        r.2.chan() == r.0.main_tx().chan(),
        r.1.chans() == bus_chans(r.0.main_tx(), r.0.bus().senders()),
{
    let (main_sender, sub_senders, receivers) = channel_bus(TUNNEL_BUS_NUM, TUNNEL_BUS_BUFFER);
    let main_sender_task = clone_sender(&main_sender);
    (Tunnel::new(sub_senders, main_sender), receivers, main_sender_task)
}

/// A client tunnel whose connection to the server is meant to be QUIC. Its bus is that of
/// every client tunnel; the transport itself is not part of this library.
pub struct QuicTunnel;

/// A client tunnel whose connection to the server is meant to be s2n-quic. Its bus is that
/// of every client tunnel; the transport itself is not part of this library.
pub struct S2nTunnel;

/// A client tunnel whose connection to the server is TCP. Its bus is that of every client
/// tunnel; the connection itself is made by the caller.
pub struct TcpTunnel;

impl QuicTunnel {
    /// The tunnel and the side of its bus that the task talking to the server serves.
    pub fn generate() -> (r: (Tunnel, Receivers<ClientMsg>, ChannelSender<ClientMsg>))
        ensures
            r.0.next_id() == 0,
            r.0.wf(),
            r.2.chan() == r.0.main_tx().chan(),
            r.1.chans() == bus_chans(r.0.main_tx(), r.0.bus().senders()),
    {
        tunnel_bus()
    }
}

impl S2nTunnel {
    /// The tunnel and the side of its bus that the task talking to the server serves.
    pub fn generate() -> (r: (Tunnel, Receivers<ClientMsg>, ChannelSender<ClientMsg>))
        ensures
            r.0.next_id() == 0,
            r.0.wf(),
            r.2.chan() == r.0.main_tx().chan(),
            r.1.chans() == bus_chans(r.0.main_tx(), r.0.bus().senders()),
    {
        tunnel_bus()
    }
}

impl TcpTunnel {
    /// The tunnel and the side of its bus that the task talking to the server serves.
    pub fn generate() -> (r: (Tunnel, Receivers<ClientMsg>, ChannelSender<ClientMsg>))
        ensures
            r.0.next_id() == 0,
            r.0.wf(),
            r.2.chan() == r.0.main_tx().chan(),
            r.1.chans() == bus_chans(r.0.main_tx(), r.0.bus().senders()),
    {
        tunnel_bus()
    }
}

} // verus!
