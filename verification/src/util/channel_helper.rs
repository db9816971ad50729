//! A bus of channels: one main sender, several sub-senders used in turn, and one
//! receiver side that merges them all.
use vstd::prelude::*;

use futures::channel::mpsc::{Receiver, Sender};
use futures::stream::SelectAll;

verus! {

/// The receiving side of a bus: one stream that merges several channels, with the ghost
/// set of the names of the channels merged. Only `push` adds a channel to both.
#[verifier::reject_recursive_types(T)]
pub struct Receivers<T> {
    set: SelectAll<Receiver<T>>,
    chans: Ghost<Set<int>>,
}

impl<T> Receivers<T> {
    /// The names of the channels merged.
    pub closed spec fn chans(&self) -> Set<int> {
        self.chans@
    }

    /// No channel merged yet.
    pub fn new() -> (r: Self)
        ensures
            r.chans() == Set::<int>::empty(),
    {
        Receivers { set: new_receivers(), chans: Ghost(Set::empty()) }
    }

    /// Merges one more channel.
    pub fn push(&mut self, receiver: ChannelReceiver<T>)
        ensures
            final(self).chans() == old(self).chans().insert(receiver.chan()),
    {
        let ghost c = receiver.chan();
        push_receiver(&mut self.set, receiver.rx);
        proof {
            self.chans@ = self.chans@.insert(c);
        }
    }

    /// The merged stream, to receive on.
    pub fn stream(&mut self) -> &mut SelectAll<Receiver<T>> {
        &mut self.set
    }
}

pub type MainSender<T> = ChannelSender<T>;

/// The sending half of a bounded channel, with a ghost name of the channel it sends into
/// and the room the channel was made with. The name is given when the channel is made, to
/// both of its halves, and a copy of the sender keeps it; nothing else makes one. So two
/// halves that carry the same name belong to one channel.
#[verifier::reject_recursive_types(T)]
pub struct ChannelSender<T> {
    tx: Sender<T>,
    chan: Ghost<int>,
    room: Ghost<nat>,
}

/// The receiving half of a bounded channel, with the ghost name of its channel.
#[verifier::reject_recursive_types(T)]
pub struct ChannelReceiver<T> {
    rx: Receiver<T>,
    chan: Ghost<int>,
}

impl<T> ChannelSender<T> {
    /// The name of the channel this sender sends into.
    pub closed spec fn chan(&self) -> int {
        self.chan@
    }

    /// How many messages the channel was made to hold beyond one per sender.
    pub closed spec fn buffer(&self) -> nat {
        self.room@
    }

    /// The sender itself, to send on.
    pub fn sender(&mut self) -> &mut Sender<T> {
        &mut self.tx
    }

    /// Another sender into the same channel.
    pub fn duplicate(&self) -> (r: Self)
        ensures
            r.chan() == self.chan(),
            r.buffer() == self.buffer(),
    {
        clone_sender(self)
    }
}

impl<T> ChannelReceiver<T> {
    /// The name of the channel this receiver receives from.
    pub closed spec fn chan(&self) -> int {
        self.chan@
    }

    /// The receiver itself, to receive on.
    pub fn receiver(&mut self) -> &mut Receiver<T> {
        &mut self.rx
    }
}

/// The sub-senders of a bus and the index of the one used last.
#[verifier::reject_recursive_types(T)]
pub struct SubSenders<T>(Vec<ChannelSender<T>>, usize);

/// `futures::channel::mpsc::channel` of the `futures` crate: a bounded channel with room
/// for `buffer` messages beyond one per sender. Claims that both halves carry one name (the
/// one given here; what the name is, is not claimed) and that the sender records `buffer`.
/// The call panics from `usize::MAX >> 2` on, which `requires` excludes.
#[verifier::external_body]
pub(crate) fn bounded_channel<T>(buffer: usize) -> (r: (ChannelSender<T>, ChannelReceiver<T>))
    requires
        buffer < usize::MAX / 4,
    ensures
        r.0.chan() == r.1.chan(),
        r.0.buffer() == buffer,
{
    let (tx, rx) = futures::channel::mpsc::channel(buffer);
    (
        ChannelSender { tx, chan: Ghost(0int), room: Ghost(buffer as nat) },
        ChannelReceiver { rx, chan: Ghost(0int) },
    )
}

/// `Clone::clone` of `futures::channel::mpsc::Sender`: another sender of the same channel.
/// Claims that the copy keeps the channel's name and room. The call panics once a channel has
/// `usize::MAX >> 2` minus its buffer senders, which no clause states.
#[verifier::external_body]
pub(crate) fn clone_sender<T>(sender: &ChannelSender<T>) -> (r: ChannelSender<T>)
    ensures
        r.chan() == sender.chan(),
        r.buffer() == sender.buffer(),
{
    ChannelSender { tx: sender.tx.clone(), chan: sender.chan, room: sender.room }
}

/// `SelectAll::new` of `futures`: an empty set of streams. Nothing is claimed of it.
#[verifier::external_body]
fn new_receivers<T>() -> SelectAll<Receiver<T>> {
    SelectAll::new()
}

/// `SelectAll::push` of `futures`: adds a stream to the set. Nothing is claimed of it.
#[verifier::external_body]
fn push_receiver<T>(receivers: &mut SelectAll<Receiver<T>>, receiver: Receiver<T>) {
    receivers.push(receiver)
}

/// A new bounded channel with room for `buffer` messages beyond one per sender: its two
/// halves carry the same name.
pub fn new_channel<T>(buffer: usize) -> (r: (ChannelSender<T>, ChannelReceiver<T>))
    requires
        buffer < usize::MAX / 4,
    ensures
        r.0.chan() == r.1.chan(),
        r.0.buffer() == buffer,
{
    bounded_channel(buffer)
}

impl<T> SubSenders<T> {
    /// The sub-senders.
    pub closed spec fn senders(&self) -> Seq<ChannelSender<T>> {
        self.0@
    }

    /// The index of the sub-sender used last.
    pub closed spec fn last(&self) -> int {
        self.1 as int
    }

    /// There is a sub-sender, and the last index names one.
    pub open spec fn wf(&self) -> bool {
        0 < self.senders().len() && 0 <= self.last() < self.senders().len()
    }

    /// The next sub-sender in turn: the one after the last, wrapping around.
    pub fn get_one_sender(&mut self) -> (s: ChannelSender<T>)
        requires
            old(self).wf(),
        ensures
            final(self).wf(),
            s.chan() == final(self).senders()[final(self).last()].chan(),
            final(self).senders() == old(self).senders(),
            final(self).last() == (old(self).last() + 1) % (old(self).senders().len() as int),
    {
        let n = self.0.len();
        let next = self.1 + 1;
        if next < n {
            assert(next % n == next) by (nonlinear_arith)
                requires
                    next < n,
            ;
        } else {
            assert(next % n == 0) by (nonlinear_arith)
                requires
                    next == n,
                    n > 0,
            ;
        }
        self.1 = next % n;
        clone_sender(&self.0[self.1])
    }

    /// How many sub-senders there are.
    pub fn len(&self) -> (n: usize)
        ensures
            n == self.senders().len(),
    {
        self.0.len()
    }
}

/// The names of the channels of a bus: the main channel and every sub-channel.
pub open spec fn bus_chans<T>(main: ChannelSender<T>, subs: Seq<ChannelSender<T>>) -> Set<int> {
    Set::new(|c: int| c == main.chan() || exists|i: int| 0 <= i < subs.len() && #[trigger] subs[i].chan() == c)
}

/// Creates a bus of `bus_num` sub-channels and one main channel, each with room for
/// `buffer` messages. Returns the main sender, the sub-senders (none used yet) and the
/// receivers, which merge exactly the main channel and every sub-channel.
pub fn channel_bus<T>(bus_num: usize, buffer: usize) -> (r: (
    MainSender<T>,
    SubSenders<T>,
    Receivers<T>,
))
    requires
        buffer < usize::MAX / 4,
    ensures
        r.1.senders().len() == bus_num,
        r.1.last() == 0,
        bus_num > 0 ==> r.1.wf(),
        r.2.chans() == bus_chans(r.0, r.1.senders()),
        r.0.buffer() == buffer,
        forall|i: int| 0 <= i < bus_num ==> #[trigger] r.1.senders()[i].buffer() == buffer,
{
    let (main_sender, main_receiver) = bounded_channel(buffer);
    let mut receivers = Receivers::new();
    let mut sub_senders: SubSenders<T> = SubSenders(Vec::new(), 0);

    receivers.push(main_receiver);
    assert(receivers.chans() =~= bus_chans(main_sender, sub_senders.0@));
    let mut i: usize = 0;
    while i < bus_num
        invariant
            i <= bus_num,
            sub_senders.0@.len() == i,
            sub_senders.1 == 0,
            buffer < usize::MAX / 4,
            receivers.chans() == bus_chans(main_sender, sub_senders.0@),
            forall|k: int| 0 <= k < i ==> #[trigger] sub_senders.0@[k].buffer() == buffer,
        decreases bus_num - i,
    {
        let (sender, receiver) = bounded_channel(buffer);
        let ghost old_subs = sub_senders.0@;
        let ghost rc = receiver.chan();
        sub_senders.0.push(sender);
        receivers.push(receiver);
        proof {
            let subs = sub_senders.0@;
            assert(subs[subs.len() - 1].chan() == rc);
            assert forall|c: int| #[trigger] receivers.chans().contains(c) == bus_chans(main_sender, subs).contains(c) by {
                if exists|k: int| 0 <= k < old_subs.len() && #[trigger] old_subs[k].chan() == c {
                    let k = choose|k: int| 0 <= k < old_subs.len() && #[trigger] old_subs[k].chan() == c;
                    assert(subs[k] == old_subs[k]);
                }
                if exists|k: int| 0 <= k < subs.len() && #[trigger] subs[k].chan() == c {
                    let k = choose|k: int| 0 <= k < subs.len() && #[trigger] subs[k].chan() == c;
                    if k < old_subs.len() {
                        assert(old_subs[k] == subs[k]);
                    }
                }
            }
            assert(receivers.chans() =~= bus_chans(main_sender, subs));
        }
        i = i + 1;
    }

    (main_sender, sub_senders, receivers)
}

/// Taking the next sub-sender in turn, `n` times in a row from any last index, uses every
/// one of the `n` sub-senders: the `i`-th call (from 0) takes index `(last + 1 + i) % n`.
pub proof fn lemma_round_robin_covers_all(n: int, last: int, j: int)
    requires
        0 <= last < n,
        0 <= j < n,
    ensures
        exists|i: int| 0 <= i < n && #[trigger] ((last + 1 + i) % n) == j,
{
    let i = if j > last { j - last - 1 } else { j + n - last - 1 };
    assert((last + 1 + i) % n == j) by (nonlinear_arith)
        requires
            0 <= last < n,
            0 <= j < n,
            i == if j > last { j - last - 1 } else { j + n - last - 1 },
    ;
}

} // verus!
