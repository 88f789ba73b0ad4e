use packet_relay::stats::EngineStats;

#[test]
fn new_stats_are_all_zero() {
    let s = EngineStats::new();
    assert_eq!(s.heartbeat_count, 0);
    assert_eq!(s.engine_packet_sender_len, 0);
    assert_eq!(s.flush_elapsed_us, 0);
}

#[test]
fn cumulative_metric_accumulates() {
    let mut s = EngineStats::new();
    s.increment("num_packets_received", 3);
    s.increment("num_packets_received", 4);
    assert_eq!(s.num_packets_received, 7);
}

#[test]
fn cumulative_metric_saturates_instead_of_wrapping() {
    let mut s = EngineStats::new();
    s.increment("heartbeat_count", u64::MAX);
    s.increment("heartbeat_count", u64::MAX);
    assert_eq!(s.heartbeat_count, u64::MAX);
}

#[test]
fn gauge_keeps_running_maximum() {
    let mut s = EngineStats::new();
    s.increment("engine_packet_sender_len", 3);
    s.increment("engine_packet_sender_len", 9);
    s.increment("engine_packet_sender_len", 5);
    assert_eq!(s.engine_packet_sender_len, 9);
}

#[test]
fn unknown_metric_name_is_a_no_op() {
    let mut s = EngineStats::new();
    s.increment("heartbeat_count", 2);
    let before = s;
    s.increment("some_future_metric", 99);
    assert_eq!(s, before);
}

#[test]
fn increment_touches_only_the_named_metric() {
    let mut s = EngineStats::new();
    s.increment("auth_refresh_count", 5);
    assert_eq!(s.auth_refresh_count, 5);
    assert_eq!(s.heartbeat_count, 0);
    assert_eq!(s.num_packets_received, 0);
}

#[test]
fn every_known_metric_name_is_tracked() {
    let names = [
        "heartbeat_count",
        "heartbeat_elapsed_us",
        "aoi_update_count",
        "aoi_update_elapsed_us",
        "aoi_accounts_received",
        "poi_update_count",
        "poi_update_elapsed_us",
        "poi_accounts_received",
        "num_packets_received",
        "packet_filter_elapsed_us",
        "packet_forward_elapsed_us",
        "engine_packet_sender_len",
        "auth_refresh_count",
        "refresh_auth_elapsed_us",
        "packet_forward_count",
        "metrics_delay_us",
        "accounts_of_interest_len",
        "programs_of_interest_len",
        "flush_elapsed_us",
    ];
    let mut s = EngineStats::new();
    let zero = s;
    for name in names {
        s.increment(name, 1);
        assert_ne!(s, zero, "metric {} should be tracked", name);
        s = EngineStats::new();
    }
}

#[test]
fn report_snapshots_without_resetting() {
    let mut s = EngineStats::new();
    s.increment("heartbeat_count", 2);
    s.increment("num_packets_received", 11);
    s.increment("flush_elapsed_us", 40);
    let r = s.report();
    assert_eq!(r.heartbeat_count, 2);
    assert_eq!(r.num_packets_received, 11);
    assert_eq!(r.flush_elapsed_us, 40);
    assert_eq!(r.aoi_update_count, 0);
    // Reporting is read-only.
    assert_eq!(s.heartbeat_count, 2);
    let again = s.report();
    assert_eq!(again, r);
}

#[test]
fn default_matches_new() {
    let d = EngineStats::default();
    assert_eq!(d, EngineStats::new());
}
