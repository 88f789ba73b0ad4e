use vstd::prelude::*;
use std::collections::VecDeque;

verus! {

/// Default bound of the mirror channel.
pub const FORWARDER_QUEUE_CAPACITY: usize = 5000;

/// What a non-blocking mirror attempt reported.
#[derive(Clone, Copy, PartialEq, Eq, Structural, Debug)]
pub enum MirrorStatus {
    /// The copy was queued; nothing further is promised about delivery.
    Queued,
    /// The channel was at capacity; the copy was dropped from the mirror
    /// path only.
    Full,
    /// The consumer side has terminated.
    Closed,
}

/// What a producer must do after a mirror attempt.
#[derive(Clone, Copy, PartialEq, Eq, Structural, Debug)]
pub enum MirrorVerdict {
    /// Carry on; the copy is queued.
    Proceed,
    /// Carry on, but record a rate-limited warning: the mirror copy was shed
    /// under load. The primary delay path is unaffected.
    DropAndWarn,
    /// The consumer is gone for good; continuing would silently mask an
    /// operational failure, so the process must terminate.
    FatalConsumerGone,
}

/// The backpressure policy of the mirror path: mirroring is best-effort and
/// must never block or slow the primary path, so a full channel sheds the
/// copy with a warning, while a closed channel is fatal.
pub fn backpressure_verdict(s: MirrorStatus) -> (v: MirrorVerdict)
    ensures
        s == MirrorStatus::Queued ==> v == MirrorVerdict::Proceed,
        s == MirrorStatus::Full ==> v == MirrorVerdict::DropAndWarn,
        s == MirrorStatus::Closed ==> v == MirrorVerdict::FatalConsumerGone,
{
    match s {
        MirrorStatus::Queued => MirrorVerdict::Proceed,
        MirrorStatus::Full => MirrorVerdict::DropAndWarn,
        MirrorStatus::Closed => MirrorVerdict::FatalConsumerGone,
    }
}

/// Bounded FIFO hand-off from the workers to the engine-forwarding side.
/// Producers enqueue without blocking; one consumer drains from the front.
/// Overflow and closure are explicit outcomes, never silent drops.
pub struct MirrorChannel {
    queue: VecDeque<Vec<u8>>,
    capacity: usize,
    closed: bool,
}

impl MirrorChannel {
    /// The queued packets, front (oldest) first.
    pub closed spec fn contents(self) -> Seq<Vec<u8>> {
        self.queue@
    }

    /// The fixed bound the channel was created with.
    pub closed spec fn cap(self) -> usize {
        self.capacity
    }

    /// Whether the consumer side has terminated.
    pub closed spec fn is_closed(self) -> bool {
        self.closed
    }

    pub fn new(capacity: usize) -> (c: MirrorChannel)
        ensures
            c.contents() == Seq::<Vec<u8>>::empty(),
            c.cap() == capacity,
            !c.is_closed(),
    {
        MirrorChannel { queue: VecDeque::new(), capacity, closed: false }
    }

    pub fn len(&self) -> (n: usize)
        ensures
            n == self.contents().len(),
    {
        self.queue.len()
    }

    pub fn capacity(&self) -> (n: usize)
        ensures
            n == self.cap(),
    {
        self.capacity
    }

    /// Non-blocking enqueue of a mirror copy. A closed channel reports
    /// `Closed`, a channel at capacity reports `Full`; both leave the channel
    /// as it was. Otherwise the packet joins the back of the queue.
    pub fn try_mirror(&mut self, packet: Vec<u8>) -> (s: MirrorStatus)
        ensures
            final(self).cap() == old(self).cap(),
            final(self).is_closed() == old(self).is_closed(),
            old(self).is_closed() ==> s == MirrorStatus::Closed
                && final(self).contents() == old(self).contents(),
            !old(self).is_closed() && old(self).contents().len() >= old(self).cap()
                ==> s == MirrorStatus::Full && final(self).contents() == old(self).contents(),
            !old(self).is_closed() && old(self).contents().len() < old(self).cap()
                ==> s == MirrorStatus::Queued
                && final(self).contents() == old(self).contents().push(packet),
    {
        if self.closed {
            MirrorStatus::Closed
        } else if self.queue.len() >= self.capacity {
            MirrorStatus::Full
        } else {
            self.queue.push_back(packet);
            MirrorStatus::Queued
        }
    }

    /// Consumer side: take the oldest queued packet, if any.
    pub fn pop_next(&mut self) -> (p: Option<Vec<u8>>)
        ensures
            final(self).cap() == old(self).cap(),
            final(self).is_closed() == old(self).is_closed(),
            old(self).contents().len() == 0 ==> p is None
                && final(self).contents() == old(self).contents(),
            old(self).contents().len() > 0 ==> p == Some(old(self).contents()[0])
                && final(self).contents() == old(self).contents().skip(1),
    {
        let r = self.queue.pop_front();
        proof {
            if old(self).contents().len() > 0 {
                assert(self.queue@ =~= old(self).contents().skip(1));
            }
        }
        r
    }

    /// Mark the consumer side as terminated; queued packets stay readable.
    pub fn close(&mut self)
        ensures
            final(self).cap() == old(self).cap(),
            final(self).is_closed(),
            final(self).contents() == old(self).contents(),
    {
        self.closed = true;
    }
}

} // verus!
