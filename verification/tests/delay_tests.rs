use packet_relay::delay_buffer::DelayBuffer;
use packet_relay::worker::{SourceEvent, Worker, SLEEP_DURATION_MS};

fn pkt(b: u8) -> Vec<u8> {
    vec![b]
}

#[test]
fn release_ready_empty_buffer_yields_nothing() {
    let mut b = DelayBuffer::new();
    assert_eq!(b.len(), 0);
    let released = b.release_ready(1000, 100);
    assert!(released.is_empty());
    assert_eq!(b.len(), 0);
}

#[test]
fn release_stops_at_first_not_ready() {
    // Ages at t=200 with a 100 ms window: 200, 190, 50, 40 — the first two
    // are ready, the third is not, and the drain must not look past it.
    let mut b = DelayBuffer::new();
    b.enqueue(pkt(1), 0);
    b.enqueue(pkt(2), 10);
    b.enqueue(pkt(3), 150);
    b.enqueue(pkt(4), 160);
    let released = b.release_ready(200, 100);
    assert_eq!(released, vec![pkt(1), pkt(2)]);
    assert_eq!(b.len(), 2);
    // The remaining two are untouched and in order for the next call.
    let later = b.release_ready(270, 100);
    assert_eq!(later, vec![pkt(3), pkt(4)]);
    assert_eq!(b.len(), 0);
}

#[test]
fn release_respects_delay_lower_bound() {
    let mut b = DelayBuffer::new();
    b.enqueue(pkt(9), 40);
    // One millisecond early: age 99 < 100, nothing is released.
    assert!(b.release_ready(139, 100).is_empty());
    // Exactly at the bound: age 100 >= 100.
    assert_eq!(b.release_ready(140, 100), vec![pkt(9)]);
}

#[test]
fn release_preserves_fifo_order_within_worker() {
    let mut b = DelayBuffer::new();
    for i in 0..20u8 {
        b.enqueue(pkt(i), i as u64);
    }
    let mut out: Vec<Vec<u8>> = Vec::new();
    out.extend(b.release_ready(60, 50));
    out.extend(b.release_ready(80, 50));
    let rest = b.release_ready(1000, 50);
    out.extend(rest);
    let expected: Vec<Vec<u8>> = (0..20u8).map(pkt).collect();
    assert_eq!(out, expected);
}

#[test]
fn scenario_three_packets_one_worker_100ms_delay() {
    // P1@t=0, P2@t=10, P3@t=50 with a 100 ms window. The check around
    // t=105 lands one poll interval later (t=110), by which point the first
    // two are due together and the third is not; at t=155 the third follows.
    let mut w = Worker::new();
    let r0 = w.step(SourceEvent::Delivered(pkt(1)), 0, 100, true);
    assert!(r0.released.is_empty());
    let r1 = w.step(SourceEvent::Delivered(pkt(2)), 10, 100, true);
    assert!(r1.released.is_empty());
    let r2 = w.step(SourceEvent::Delivered(pkt(3)), 50, 100, true);
    assert!(r2.released.is_empty());
    let r3 = w.step(SourceEvent::TimedOut, 105 + SLEEP_DURATION_MS, 100, true);
    assert_eq!(r3.released, vec![pkt(1), pkt(2)]);
    let r4 = w.step(SourceEvent::TimedOut, 155, 100, true);
    assert_eq!(r4.released, vec![pkt(3)]);
}

#[test]
fn worker_step_mirrors_copy_when_enabled() {
    let mut w = Worker::new();
    let r = w.step(SourceEvent::Delivered(pkt(7)), 0, 100, false);
    assert_eq!(r.mirror_copy, Some(pkt(7)));
    assert!(!r.fatal_source_loss);
}

#[test]
fn worker_step_mirrors_nothing_when_disabled() {
    let mut w = Worker::new();
    let r = w.step(SourceEvent::Delivered(pkt(7)), 0, 100, true);
    assert_eq!(r.mirror_copy, None);
    // The delay path is unaffected by the mirroring switch.
    let due = w.step(SourceEvent::TimedOut, 100, 100, true);
    assert_eq!(due.released, vec![pkt(7)]);
}

#[test]
fn worker_step_reports_source_loss_as_fatal() {
    let mut w = Worker::new();
    let r = w.step(SourceEvent::SourceClosed, 0, 100, false);
    assert!(r.fatal_source_loss);
    assert!(r.released.is_empty());
    assert_eq!(r.mirror_copy, None);
}

#[test]
fn worker_timeout_step_only_drains() {
    let mut w = Worker::new();
    let r = w.step(SourceEvent::TimedOut, 5, 100, false);
    assert_eq!(r.mirror_copy, None);
    assert!(r.released.is_empty());
    assert!(!r.fatal_source_loss);
}

#[test]
fn zero_delay_releases_immediately() {
    let mut b = DelayBuffer::new();
    b.enqueue(pkt(1), 42);
    assert_eq!(b.release_ready(42, 0), vec![pkt(1)]);
    assert_eq!(b.len(), 0);
}
