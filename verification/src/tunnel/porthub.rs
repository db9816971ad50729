//! The table of a tunnel's ports. A port has two halves, one reading and one writing; it
//! stays in the table until both halves are dropped, or until either side closes it, or
//! until a message can no longer be delivered to it.
use vstd::prelude::*;

use std::collections::HashMap;

use crate::util::channel_helper::ChannelSender;

use crate::communicate::TunnelPortMsg;
use crate::util::channel_helper::clone_sender;

verus! {

broadcast use vstd::std_specs::hash::group_hash_axioms;

/// A port: the address it is connected to, how many of its halves are alive, and the
/// sender that reaches it.
pub struct Port {
    pub address: String,
    pub count: u32,
    pub tx: ChannelSender<TunnelPortMsg>,
}

/// The id of a tunnel and its ports, by port id.
pub struct PortHub(u32, HashMap<u32, Port>);

/// A port as `add_port` makes it: no address yet, both halves alive.
pub open spec fn fresh_port(p: Port) -> bool {
    p.address@ == Seq::<char>::empty() && p.count == 2
}

/// Every port in the table has one or both halves alive.
pub open spec fn ports_wf(ports: Map<u32, Port>) -> bool {
    forall|k: u32| #[trigger] ports.contains_key(k) ==> 1 <= ports[k].count <= 2
}

/// The table after one half of port `id` is dropped: the port leaves with its last half.
pub open spec fn after_drop_half(ports: Map<u32, Port>, id: u32) -> Map<u32, Port> {
    if !ports.contains_key(id) {
        ports
    } else if ports[id].count <= 1 {
        ports.remove(id)
    } else {
        ports.insert(
            id,
            Port { address: ports[id].address, count: (ports[id].count - 1) as u32, tx: ports[id].tx },
        )
    }
}

impl PortHub {
    /// The ports, by id.
    pub closed spec fn ports(&self) -> Map<u32, Port> {
        self.1@
    }

    /// The id of the tunnel.
    pub closed spec fn id(&self) -> u32 {
        self.0
    }

    pub open spec fn wf(&self) -> bool {
        ports_wf(self.ports())
    }

    pub fn new(id: u32) -> (r: Self)
        ensures
            r.id() == id,
            r.ports() == Map::<u32, Port>::empty(),
            r.wf(),
    {
        PortHub(id, HashMap::new())
    }

    pub fn get_id(&self) -> (id: u32)
        ensures
            id == self.id(),
    {
        self.0
    }

    /// Adds port `id` with both halves alive, replacing any port of that id.
    pub fn add_port(&mut self, id: u32, tx: ChannelSender<TunnelPortMsg>)
        requires
            old(self).wf(),
        ensures
            final(self).wf(),
            final(self).id() == old(self).id(),
            final(self).ports() == old(self).ports().insert(id, final(self).ports()[id]),
            fresh_port(final(self).ports()[id]),
            final(self).ports()[id].tx == tx,
    {
        self.1.insert(id, Port { address: String::new(), count: 2, tx });
    }

    /// Records the address port `id` is connected to; an unknown id changes nothing.
    pub fn update_address(&mut self, id: u32, address: String)
        requires
            old(self).wf(),
        ensures
            final(self).wf(),
            final(self).id() == old(self).id(),
            old(self).ports().contains_key(id) ==> final(self).ports() == old(self).ports().insert(
                id,
                Port { address, count: old(self).ports()[id].count, tx: old(self).ports()[id].tx },
            ),
            !old(self).ports().contains_key(id) ==> final(self).ports() == old(self).ports(),
    {
        match self.1.remove(&id) {
            Some(port) => {
                self.1.insert(id, Port { address, count: port.count, tx: port.tx });
                assert(self.1@ =~= old(self).ports().insert(
                    id,
                    Port { address, count: old(self).ports()[id].count, tx: old(self).ports()[id].tx },
                ));
            },
            None => {
                assert(self.1@ =~= old(self).ports());
            },
        }
    }

    /// One half of port `id` is dropped; the port leaves the table with its last half.
    pub fn drop_port_half(&mut self, id: u32)
        requires
            old(self).wf(),
        ensures
            final(self).wf(),
            final(self).id() == old(self).id(),
            final(self).ports() == after_drop_half(old(self).ports(), id),
    {
        match self.1.remove(&id) {
            Some(port) => {
                let count = port.count - 1;
                if count != 0 {
                    self.1.insert(id, Port { address: port.address, count, tx: port.tx });
                    assert(self.1@ =~= after_drop_half(old(self).ports(), id));
                }
            },
            None => {
                assert(self.1@ =~= old(self).ports());
            },
        }
    }

    /// Removes every port.
    pub fn clear_ports(&mut self)
        ensures
            final(self).wf(),
            final(self).id() == old(self).id(),
            final(self).ports() == Map::<u32, Port>::empty(),
    {
        self.1.clear();
    }

    /// The client closed port `id`: it leaves the table.
    pub fn client_close_port(&mut self, id: u32)
        requires
            old(self).wf(),
        ensures
            final(self).wf(),
            final(self).id() == old(self).id(),
            final(self).ports() == old(self).ports().remove(id),
    {
        let _ = self.1.remove(&id);
    }

    /// The server closed port `id`: it leaves the table.
    pub fn server_close_port(&mut self, id: u32)
        requires
            old(self).wf(),
        ensures
            final(self).wf(),
            final(self).id() == old(self).id(),
            final(self).ports() == old(self).ports().remove(id),
    {
        let _ = self.1.remove(&id);
    }

    /// Whether the client's shutdown of port `id` concerns a known port; it changes
    /// nothing.
    pub fn client_shutdown(&self, id: u32) -> (known: bool)
        ensures
            known == self.ports().contains_key(id),
    {
        self.1.contains_key(&id)
    }

    /// Where to deliver a message for port `id`: a sender into the port's channel, if the
    /// table has it; otherwise the message is dropped.
    pub fn try_send_msg(&self, id: u32, msg: TunnelPortMsg) -> (r: Option<
        (ChannelSender<TunnelPortMsg>, TunnelPortMsg),
    >)
        ensures
            self.ports().contains_key(id) ==> (r matches Some((tx, m)) && m == msg && tx.chan()
                == self.ports()[id].tx.chan()),
            !self.ports().contains_key(id) ==> r is None,
    {
        match self.1.get(&id) {
            Some(port) => Some((clone_sender(&port.tx), msg)),
            None => None,
        }
    }

    /// A message could not be delivered to port `id`: the port leaves the table.
    pub fn send_failed(&mut self, id: u32)
        requires
            old(self).wf(),
        ensures
            final(self).wf(),
            final(self).id() == old(self).id(),
            final(self).ports() == old(self).ports().remove(id),
    {
        let _ = self.1.remove(&id);
    }

    /// The server shut down writing on port `id`: the port, if known, is told so.
    pub fn server_shutdown(&self, id: u32) -> (r: Option<(ChannelSender<TunnelPortMsg>, TunnelPortMsg)>)
        ensures
            self.ports().contains_key(id) ==> (r matches Some((tx, m)) && m
                == TunnelPortMsg::ShutdownWrite && tx.chan() == self.ports()[id].tx.chan()),
            !self.ports().contains_key(id) ==> r is None,
    {
        self.try_send_msg(id, TunnelPortMsg::ShutdownWrite)
    }

    /// Port `id` is connected, with these bytes of the reply: the port, if known, is told
    /// so.
    pub fn connect_ok(&self, id: u32, buf: Vec<u8>) -> (r: Option<
        (ChannelSender<TunnelPortMsg>, TunnelPortMsg),
    >)
        ensures
            self.ports().contains_key(id) ==> (r matches Some((tx, m)) && m
                == TunnelPortMsg::ConnectOk(buf) && tx.chan() == self.ports()[id].tx.chan()),
            !self.ports().contains_key(id) ==> r is None,
    {
        self.try_send_msg(id, TunnelPortMsg::ConnectOk(buf))
    }

    /// Data from the server for port `id`: it goes to the port, if known.
    pub fn server_send_data(&self, id: u32, buf: Vec<u8>) -> (r: Option<
        (ChannelSender<TunnelPortMsg>, TunnelPortMsg),
    >)
        ensures
            self.ports().contains_key(id) ==> (r matches Some((tx, m)) && m
                == TunnelPortMsg::Data(buf) && tx.chan() == self.ports()[id].tx.chan()),
            !self.ports().contains_key(id) ==> r is None,
    {
        self.try_send_msg(id, TunnelPortMsg::Data(buf))
    }
}

/// A port added to the table leaves it exactly when both of its halves have been dropped:
/// after one drop it is still there, after the second the table is as it was without it.
pub proof fn lemma_port_lives_until_both_halves_drop(ports: Map<u32, Port>, id: u32, p: Port)
    requires
        fresh_port(p),
    ensures
        after_drop_half(ports.insert(id, p), id).contains_key(id),
        after_drop_half(after_drop_half(ports.insert(id, p), id), id) == ports.remove(id),
{
    let once = after_drop_half(ports.insert(id, p), id);
    assert(once[id].count == 1);
    assert(after_drop_half(once, id) =~= ports.remove(id));
}

} // verus!
