use crate::packet::EncodedPacket;
use vstd::prelude::*;

verus! {

/// A first-in first-out queue of packets: both ends of one unbounded
/// `kanal` channel, used from a single thread.
#[verifier::external_body]
pub struct PacketQueue {
    sender: kanal::Sender<EncodedPacket>,
    receiver: kanal::Receiver<EncodedPacket>,
}

/// The packets held by the queue, oldest first.
pub uninterp spec fn queued(q: PacketQueue) -> Seq<EncodedPacket>;

impl PacketQueue {
    /// Relies on `kanal::unbounded`: a new channel holds nothing.
    #[verifier::external_body]
    pub(crate) fn new() -> (r: PacketQueue)
        ensures
            queued(r) == Seq::<EncodedPacket>::empty(),
    {
        let (sender, receiver) = kanal::unbounded();
        PacketQueue { sender, receiver }
    }

    /// Relies on `kanal::Sender::send`: while the receiver is alive and no
    /// thread waits on the channel, the item goes to the back of the queue.
    /// An unbounded channel takes up to `usize::MAX` items.
    #[verifier::external_body]
    pub(crate) fn push(&mut self, packet: EncodedPacket)
        requires
            queued(*old(self)).len() < usize::MAX,
        ensures
            queued(*final(self)) == queued(*old(self)).push(packet),
    {
        let _ = self.sender.send(packet);
    }

    /// Relies on `kanal::Receiver::try_recv`: while a sender is alive and no
    /// thread waits on the channel, it takes the front of the queue, or
    /// returns `None` on an empty queue.
    #[verifier::external_body]
    pub(crate) fn pop(&mut self) -> (r: Option<EncodedPacket>)
        ensures
            queued(*old(self)).len() == 0 ==> r is None && queued(*final(self)) == queued(*old(self)),
            queued(*old(self)).len() > 0 ==> r == Some(queued(*old(self))[0]) && queued(*final(self))
                == queued(*old(self)).drop_first(),
    {
        self.receiver.try_recv().ok().flatten()
    }

    /// Relies on `kanal::Receiver::len`: the length of the channel's queue.
    #[verifier::external_body]
    pub(crate) fn len(&self) -> (r: usize)
        ensures
            r == queued(*self).len(),
    {
        self.receiver.len()
    }
}

} // verus!
