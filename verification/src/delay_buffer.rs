use vstd::prelude::*;
use std::collections::VecDeque;

verus! {

/// One buffered packet together with the millisecond timestamp at which it
/// arrived at its worker.
#[derive(Debug)]
pub struct DelayEntry {
    pub arrival_ms: u64,
    pub packet: Vec<u8>,
}

/// An entry is ready for release once its age has reached the delay window.
pub open spec fn is_ready(e: DelayEntry, now_ms: u64, delay_ms: u64) -> bool {
    e.arrival_ms + delay_ms <= now_ms
}

/// The packet payloads of a sequence of entries, in order.
pub open spec fn packets_of(s: Seq<DelayEntry>) -> Seq<Seq<u8>> {
    s.map_values(|e: DelayEntry| e.packet@)
}

/// The byte sequences a vector of packets denotes, in order.
pub open spec fn packets_vec(s: Seq<Vec<u8>>) -> Seq<Seq<u8>> {
    s.map_values(|p: Vec<u8>| p@)
}

/// Per-worker FIFO of packets waiting out the delay window. Entries are
/// appended at the tail in arrival order and removed only from the front,
/// only once their age has reached the configured delay.
pub struct DelayBuffer {
    entries: VecDeque<DelayEntry>,
}

impl View for DelayBuffer {
    type V = Seq<DelayEntry>;

    closed spec fn view(&self) -> Seq<DelayEntry> {
        self.entries@
    }
}

/// An entry is ready exactly when its age has reached the delay window.
fn entry_is_ready(e: &DelayEntry, now_ms: u64, delay_ms: u64) -> (r: bool)
    ensures
        r == is_ready(*e, now_ms, delay_ms),
{
    e.arrival_ms <= now_ms && now_ms - e.arrival_ms >= delay_ms
}

impl DelayBuffer {
    /// Arrival timestamps never decrease from front to back: the order of the
    /// buffer is the order in which the worker received the packets.
    pub open spec fn wf(self) -> bool {
        forall|i: int, j: int|
            0 <= i <= j < self@.len() ==> self@[i].arrival_ms <= self@[j].arrival_ms
    }

    /// A packet stamped `t` may be appended only if it arrived no earlier
    /// than everything already buffered.
    pub open spec fn can_accept(self, t: u64) -> bool {
        self@.len() == 0 || self@.last().arrival_ms <= t
    }

    pub fn new() -> (b: DelayBuffer)
        ensures
            b@ == Seq::<DelayEntry>::empty(),
            b.wf(),
    {
        DelayBuffer { entries: VecDeque::new() }
    }

    pub fn len(&self) -> (n: usize)
        ensures
            n == self@.len(),
    {
        self.entries.len()
    }

    /// Append a packet with its arrival timestamp at the tail.
    pub fn enqueue(&mut self, packet: Vec<u8>, arrival_ms: u64)
        requires
            old(self).wf(),
            old(self).can_accept(arrival_ms),
        ensures
            final(self)@ == old(self)@.push(DelayEntry { arrival_ms, packet }),
            final(self).wf(),
    {
        let ghost pre = self@;
        self.entries.push_back(DelayEntry { arrival_ms, packet });
        assert forall|i: int, j: int| 0 <= i <= j < self@.len() implies self@[i].arrival_ms
            <= self@[j].arrival_ms by {
            if j == pre.len() as int && i < j {
                assert(pre[i].arrival_ms <= pre[pre.len() - 1].arrival_ms);
            }
        }
    }

    /// Pop every entry of the longest ready prefix, in order, and hand its
    /// packets back; stop at the first entry that is not yet ready, without
    /// peeking past it. Because arrivals are ordered, everything behind the
    /// first not-ready entry is not ready either.
    ///
    /// The last clause is the per-worker FIFO guarantee: the released packets
    /// followed by the still-buffered ones are exactly the buffered sequence,
    /// in arrival order, and each released packet has waited at least the
    /// delay window (`arrival + delay <= now`).
    pub fn release_ready(&mut self, now_ms: u64, delay_ms: u64) -> (released: Vec<Vec<u8>>)
        requires
            old(self).wf(),
        ensures
            final(self).wf(),
            released@.len() <= old(self)@.len(),
            final(self)@ == old(self)@.skip(released@.len() as int),
            forall|i: int|
                0 <= i < released@.len() ==> released@[i]@ == old(self)@[i].packet@,
            forall|i: int|
                0 <= i < released@.len() ==> is_ready(old(self)@[i], now_ms, delay_ms),
            released@.len() < old(self)@.len() ==> !is_ready(
                old(self)@[released@.len() as int],
                now_ms,
                delay_ms,
            ),
            packets_vec(released@) + packets_of(final(self)@) == packets_of(old(self)@),
    {
        let ghost orig = self@;
        let mut released: Vec<Vec<u8>> = Vec::new();
        let mut stop = false;
        while !stop && self.entries.len() > 0
            invariant
                self@ == orig.skip(released@.len() as int),
                released@.len() <= orig.len(),
                forall|i: int| 0 <= i < released@.len() ==> released@[i]@ == orig[i].packet@,
                forall|i: int|
                    0 <= i < released@.len() ==> is_ready(orig[i], now_ms, delay_ms),
                stop ==> released@.len() < orig.len() && !is_ready(
                    orig[released@.len() as int],
                    now_ms,
                    delay_ms,
                ),
            decreases orig.len() - released@.len() + (if stop { 0int } else { 1int }),
        {
            let ghost k = released@.len() as int;
            if entry_is_ready(&self.entries[0], now_ms, delay_ms) {
                let e = self.entries.pop_front().unwrap();
                assert(e == orig[k]);
                released.push(e.packet);
                assert(self@ =~= orig.skip(k + 1));
            } else {
                stop = true;
            }
        }
        proof {
            let k = released@.len() as int;
            assert(self@ =~= orig.skip(k));
            assert forall|i: int, j: int| 0 <= i <= j < self@.len() implies self@[i].arrival_ms
                <= self@[j].arrival_ms by {
                assert(orig[k + i].arrival_ms <= orig[k + j].arrival_ms);
            }
            assert forall|i: int| 0 <= i < packets_of(orig).len() implies (packets_vec(released@)
                + packets_of(self@))[i] == packets_of(orig)[i] by {
                if i >= k {
                    assert(self@[i - k] == orig[i]);
                }
            }
            assert(packets_vec(released@) + packets_of(self@) =~= packets_of(orig));
        }
        released
    }
}

/// Drains chain without reordering: if one drain split the buffered packets
/// into `r1` then `mid`, and a later drain split `mid` into `r2` then
/// `rest`, then everything handed out so far, in order, followed by what is
/// still buffered, is exactly the original packet order. However often a
/// worker drains, its output order is its input order.
pub proof fn lemma_fifo_across_drains(
    first: Seq<Seq<u8>>,
    mid: Seq<Seq<u8>>,
    r1: Seq<Seq<u8>>,
    r2: Seq<Seq<u8>>,
    rest: Seq<Seq<u8>>,
)
    requires
        r1 + mid == first,
        r2 + rest == mid,
    ensures
        (r1 + r2) + rest == first,
{
    assert((r1 + r2) + rest =~= r1 + (r2 + rest));
}

} // verus!
