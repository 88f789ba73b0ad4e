use vstd::prelude::*;
use crate::delay_buffer::{DelayBuffer, DelayEntry, is_ready, packets_of, packets_vec};

verus! {

/// Bound on each worker's wait for the next inbound packet, which is also the
/// poll interval for the delay buffer and the shutdown flag.
pub const SLEEP_DURATION_MS: u64 = 5;

/// What one bounded-wait receive on the shared inbound source produced.
#[derive(Debug)]
pub enum SourceEvent {
    /// This worker won the race for one verified packet.
    Delivered(Vec<u8>),
    /// Nothing arrived within the bounded wait.
    TimedOut,
    /// The inbound source is disconnected: a fatal configuration error, the
    /// pipeline cannot function.
    SourceClosed,
}

/// Everything one worker iteration decided: the copy to offer the mirror
/// channel (if any), the packets whose delay has elapsed, in order, and
/// whether the iteration hit a fatal pipeline fault.
#[derive(Debug)]
pub struct StepOutcome {
    pub mirror_copy: Option<Vec<u8>>,
    pub released: Vec<Vec<u8>>,
    pub fatal_source_loss: bool,
}

/// The delay buffer after the intake half of an iteration: a delivered packet
/// is appended with its arrival timestamp; a timeout changes nothing.
pub open spec fn intake(pre: Seq<DelayEntry>, event: SourceEvent, now_ms: u64) -> Seq<
    DelayEntry,
> {
    match event {
        SourceEvent::Delivered(p) => pre.push(DelayEntry { arrival_ms: now_ms, packet: p }),
        _ => pre,
    }
}

/// Byte-for-byte copy of a packet, for the mirror path. The mirror and delay
/// paths have unrelated lifetimes, so the copy is deliberate.
fn copy_packet(p: &Vec<u8>) -> (c: Vec<u8>)
    ensures
        c@ == p@,
{
    let c = p.clone();
    proof {
        assert(c@ =~= p@);
    }
    c
}

/// One worker of the pool: its own delay buffer, fed from the shared inbound
/// source by whichever thread hosts it.
pub struct Worker {
    pub buffer: DelayBuffer,
}

impl Worker {
    pub fn new() -> (w: Worker)
        ensures
            w.buffer@ == Seq::<DelayEntry>::empty(),
            w.buffer.wf(),
    {
        Worker { buffer: DelayBuffer::new() }
    }

    /// The decisions of one loop iteration, given what the bounded-wait
    /// receive produced at time `now_ms`.
    ///
    /// A delivered packet is copied for the mirror path (unless mirroring is
    /// disabled) and unconditionally appended to the delay buffer — the
    /// mirror attempt's outcome never touches the primary path. Then every
    /// entry whose delay has elapsed is drained from the front, in arrival
    /// order, stopping at the first entry that is not yet ready. A
    /// disconnected source is reported as fatal and changes nothing.
    pub fn step(
        &mut self,
        event: SourceEvent,
        now_ms: u64,
        delay_ms: u64,
        disable_mempool: bool,
    ) -> (r: StepOutcome)
        requires
            old(self).buffer.wf(),
            old(self).buffer.can_accept(now_ms),
        ensures
            final(self).buffer.wf(),
            r.fatal_source_loss == (event is SourceClosed),
            event is SourceClosed ==> final(self).buffer@ == old(self).buffer@ && r.released@.len()
                == 0,
            r.mirror_copy is Some <==> (event is Delivered && !disable_mempool),
            (event matches SourceEvent::Delivered(p) ==> (disable_mempool || (r.mirror_copy
                matches Some(c) && c@ == p@))),
            !(event is SourceClosed) ==> ({
                let mid = intake(old(self).buffer@, event, now_ms);
                &&& r.released@.len() <= mid.len()
                &&& final(self).buffer@ == mid.skip(r.released@.len() as int)
                &&& forall|i: int|
                    0 <= i < r.released@.len() ==> r.released@[i]@ == mid[i].packet@
                &&& forall|i: int|
                    0 <= i < r.released@.len() ==> is_ready(mid[i], now_ms, delay_ms)
                &&& (r.released@.len() < mid.len() ==> !is_ready(
                    mid[r.released@.len() as int],
                    now_ms,
                    delay_ms,
                ))
                &&& packets_vec(r.released@) + packets_of(final(self).buffer@) == packets_of(mid)
            }),
    {
        match event {
            SourceEvent::SourceClosed => StepOutcome {
                mirror_copy: None,
                released: Vec::new(),
                fatal_source_loss: true,
            },
            SourceEvent::TimedOut => {
                let released = self.buffer.release_ready(now_ms, delay_ms);
                StepOutcome { mirror_copy: None, released, fatal_source_loss: false }
            },
            SourceEvent::Delivered(p) => {
                let mirror_copy = if !disable_mempool {
                    Some(copy_packet(&p))
                } else {
                    None
                };
                self.buffer.enqueue(p, now_ms);
                let released = self.buffer.release_ready(now_ms, delay_ms);
                StepOutcome { mirror_copy, released, fatal_source_loss: false }
            },
        }
    }
}

} // verus!
