use rgtping::codec::ECHO_RESPONSE;
use rgtping::session::WAIT_FOREVER_MS;
use rgtping::{encode, Pinger, Stats};

fn response(seq: u16) -> Vec<u8> {
    let mut b = encode(seq);
    b[1] = ECHO_RESPONSE;
    b
}

fn pinger(count: u64, timeout_ms: u64) -> Pinger {
    Pinger::new("192.0.2.1:2152".to_string(), 1_700_000_000_000, count, 0, timeout_ms)
}

/// Sends the next probe and answers it with its own sequence number.
fn answer(p: &mut Pinger, rtt_us: u64) {
    assert!(p.is_ready());
    let seq = p.sequence();
    p.on_sent();
    assert_eq!(p.on_datagram(&response(seq), rtt_us), Some(seq));
}

fn avg_ms(s: &Stats) -> f64 {
    s.rtt_sum_us as f64 / s.samples as f64 / 1000.0
}

fn mdev_ms(s: &Stats) -> f64 {
    let n = s.samples as f64;
    let mean = s.rtt_sum_us as f64 / n;
    (s.rtt_sq_sum as f64 / n - mean * mean).sqrt() / 1000.0
}

fn loss_percentage(s: &Stats) -> f64 {
    (s.sent - s.received) as f64 / s.sent as f64 * 100.0
}

#[test]
fn all_answered() {
    let mut p = pinger(3, 100);
    answer(&mut p, 10_000);
    answer(&mut p, 20_000);
    answer(&mut p, 30_000);
    assert!(p.is_complete());
    assert!(!p.is_ready());
    let s = p.calculate_stats(60_000);
    assert_eq!(s.target, "192.0.2.1:2152");
    assert_eq!(s.epoch_ms, 1_700_000_000_000);
    assert_eq!(s.duration_us, 60_000);
    assert_eq!((s.sent, s.received, s.refused_packets, s.timed_out_packets), (3, 3, 0, 0));
    assert_eq!(s.duplicate_packets, 0);
    assert_eq!(loss_percentage(&s), 0.0);
    assert_eq!(s.samples, 3);
    assert_eq!(s.rtt_min_us, 10_000);
    assert_eq!(s.rtt_max_us, 30_000);
    assert_eq!(s.rtt_sum_us, 60_000);
    assert_eq!(s.rtt_sq_sum, 1_400_000_000);
    assert!((avg_ms(&s) - 20.0).abs() < 1e-9);
    assert!((mdev_ms(&s) - 8.165).abs() < 1e-3);
}

#[test]
fn two_probes_time_out() {
    let mut p = pinger(5, 100);
    for seq in 0..5u16 {
        assert_eq!(p.sequence(), seq);
        p.on_sent();
        if seq == 2 || seq == 4 {
            p.on_timeout();
        } else {
            assert_eq!(p.on_datagram(&response(seq), 1_000 + seq as u64), Some(seq));
        }
    }
    assert!(p.is_complete());
    let s = p.calculate_stats(1);
    assert_eq!((s.sent, s.received, s.timed_out_packets, s.refused_packets), (5, 3, 2, 0));
    assert_eq!(loss_percentage(&s), 40.0);
    assert_eq!(s.samples, 3);
    assert_eq!(s.rtt_min_us, 1_000);
    assert_eq!(s.rtt_max_us, 1_003);
    assert_eq!(s.sent, s.received + s.refused_packets + s.timed_out_packets);
}

#[test]
fn port_closed_for_every_send() {
    let mut p = pinger(4, 100);
    while p.is_ready() {
        p.on_send_refused();
    }
    assert!(p.is_complete());
    assert_eq!(p.sequence(), 0);
    let s = p.calculate_stats(5);
    assert_eq!((s.sent, s.received, s.refused_packets, s.timed_out_packets), (0, 0, 4, 0));
    assert_eq!(s.samples, 0);
    assert_eq!((s.rtt_min_us, s.rtt_max_us, s.rtt_sum_us), (0, 0, 0));
    assert!(avg_ms(&s).is_nan());
}

#[test]
fn duplicate_response_counted_once() {
    let mut p = pinger(3, 100);
    answer(&mut p, 5_000);
    p.on_sent();
    assert_eq!(p.on_datagram(&response(0), 7_000), Some(0));
    assert_eq!(p.duplicate_packets(), 1);
    assert_eq!(p.received(), 2);
    answer(&mut p, 6_000);
    assert_eq!(p.duplicate_packets(), 1);
    let s = p.calculate_stats(0);
    // the later response overwrote the first sample of slot 0
    assert_eq!(s.samples, 2);
    assert_eq!(s.rtt_min_us, 6_000);
    assert_eq!(s.rtt_max_us, 7_000);
}

#[test]
fn response_without_sequence_matches_probe_in_flight() {
    let mut p = pinger(2, 100);
    answer(&mut p, 3_000);
    p.on_sent();
    assert_eq!(p.on_datagram(&[0x30, 2, 0, 0, 0, 0, 0, 0], 4_000), Some(1));
    assert_eq!(p.received(), 2);
    assert_eq!(p.duplicate_packets(), 0);
}

#[test]
fn malformed_datagram_counts_as_timeout() {
    let mut p = pinger(2, 100);
    p.on_sent();
    assert_eq!(p.on_datagram(&[1, 2, 3], 100), None);
    assert_eq!(p.timed_out_packets(), 1);
    assert_eq!(p.received(), 0);
    p.on_sent();
    assert_eq!(p.on_datagram(&encode(1), 100), None);
    assert_eq!(p.timed_out_packets(), 2);
    assert!(p.is_complete());
}

#[test]
fn read_failure_counts_as_refused() {
    let mut p = pinger(2, 100);
    p.on_sent();
    p.on_read_failure();
    assert_eq!(p.refused_packets(), 1);
    assert_eq!(p.sent(), 1);
    assert_eq!(p.sequence(), 2);
    answer(&mut p, 1_000);
    let s = p.calculate_stats(0);
    assert_eq!(s.sent, s.received + s.refused_packets + s.timed_out_packets);
}

#[test]
fn refused_send_keeps_sequence() {
    let mut p = pinger(3, 100);
    p.on_send_refused();
    assert_eq!(p.sequence(), 0);
    answer(&mut p, 2_000);
    assert_eq!(p.sequence(), 1);
    p.on_sent();
    p.on_timeout();
    let s = p.calculate_stats(0);
    assert_eq!((s.sent, s.received, s.refused_packets, s.timed_out_packets), (2, 1, 1, 1));
    assert_eq!(s.received + s.refused_packets + s.timed_out_packets, 3);
}

#[test]
fn slots_alias_beyond_window() {
    let mut p = pinger(1025, 100);
    for _ in 0..1024 {
        answer(&mut p, 1_000);
    }
    assert_eq!(p.duplicate_packets(), 0);
    assert_eq!(p.sequence(), 1024);
    answer(&mut p, 9_000);
    assert_eq!(p.duplicate_packets(), 1);
    assert_eq!(p.received(), 1025);
    let s = p.calculate_stats(0);
    assert_eq!(s.samples, 1024);
    assert_eq!(s.rtt_max_us, 9_000);
    assert_eq!(s.rtt_sum_us, 1023 * 1_000 + 9_000);
}

#[test]
fn sequence_wraps() {
    let mut p = pinger(65_537, 100);
    for _ in 0..65_536u32 {
        p.on_sent();
        p.on_timeout();
    }
    assert_eq!(p.sequence(), 0);
    assert_eq!(p.sent(), 65_536);
    assert_eq!(p.request(), encode(0));
}

#[test]
fn aggregation_is_repeatable() {
    let mut p = pinger(2, 100);
    answer(&mut p, 1_500);
    answer(&mut p, 2_500);
    let a = p.calculate_stats(10);
    let b = p.calculate_stats(20);
    assert_eq!(
        (a.sent, a.received, a.samples, a.rtt_min_us, a.rtt_max_us, a.rtt_sum_us, a.rtt_sq_sum),
        (b.sent, b.received, b.samples, b.rtt_min_us, b.rtt_max_us, b.rtt_sum_us, b.rtt_sq_sum)
    );
    assert_ne!(a.duration_us, b.duration_us);
}

#[test]
fn wait_uses_timeout_or_forever() {
    assert_eq!(pinger(1, 250).wait_ms(), 250);
    assert_eq!(pinger(1, 0).wait_ms(), WAIT_FOREVER_MS);
    let p = Pinger::new("t".to_string(), 0, 1, 1000, 5);
    assert_eq!(p.interval_ms(), 1000);
    assert_eq!(p.request(), encode(0));
}
