use netboost::PerformanceMonitor;

#[test]
fn counters_accumulate() {
    let mut monitor = PerformanceMonitor::new(0);
    monitor.record_packet_received(100);
    monitor.record_packet_received(200);
    monitor.record_packet_forwarded(100, 10);
    monitor.record_packet_dropped();
    let stats = monitor.get_current_stats(500);
    assert_eq!(stats.packets_received, 2);
    assert_eq!(stats.packets_forwarded, 1);
    assert_eq!(stats.packets_dropped, 1);
    assert_eq!(stats.uptime, 500);
}

#[test]
fn loss_rate_is_dropped_over_received() {
    let mut monitor = PerformanceMonitor::new(0);
    for _ in 0..4 {
        monitor.record_packet_received(100);
    }
    monitor.record_packet_dropped();
    let stats = monitor.get_current_stats(100);
    // 1 dropped of 4 received: a quarter, carried as 250 thousandths.
    assert_eq!(stats.packet_loss_rate, 250);
}

#[test]
fn loss_rate_is_not_capped_at_one() {
    // More drops than receipts: the snapshot reports the quotient as
    // counted, here two, carried as 2000 thousandths.
    let mut monitor = PerformanceMonitor::new(0);
    monitor.record_packet_received(100);
    monitor.record_packet_dropped();
    monitor.record_packet_dropped();
    let stats = monitor.get_current_stats(100);
    assert_eq!(stats.packet_loss_rate, 2000);
}

#[test]
fn loss_rate_with_nothing_received_is_zero() {
    let mut monitor = PerformanceMonitor::new(0);
    monitor.record_packet_dropped();
    let stats = monitor.get_current_stats(100);
    assert_eq!(stats.packet_loss_rate, 0);
}

#[test]
fn three_latency_records_average_exactly() {
    let mut monitor = PerformanceMonitor::new(0);
    monitor.record_processing_latency(10);
    monitor.record_processing_latency(20);
    monitor.record_processing_latency(30);
    let stats = monitor.get_current_stats(100);
    assert_eq!(stats.average_latency, 20);
}

#[test]
fn empty_latency_window_averages_to_zero() {
    let monitor = PerformanceMonitor::new(0);
    let stats = monitor.get_current_stats(100);
    assert_eq!(stats.average_latency, 0);
}

#[test]
fn full_latency_window_evicts_the_oldest_sample() {
    let mut monitor = PerformanceMonitor::new(0);
    // One outlier, then enough samples to fill the window completely:
    // the outlier is the oldest and is evicted, so only the 20s remain.
    monitor.record_processing_latency(1_000_000);
    for _ in 0..1000 {
        monitor.record_processing_latency(20);
    }
    let stats = monitor.get_current_stats(100);
    assert_eq!(stats.average_latency, 20);
}

#[test]
fn bandwidth_counts_only_the_last_second() {
    let mut monitor = PerformanceMonitor::new(0);
    monitor.record_packet_forwarded(700, 1_000);
    monitor.record_packet_forwarded(300, 2_500);
    monitor.record_packet_forwarded(400, 3_000);
    // At instant 3200, only the events at 2500 and 3000 are less than a
    // second old.
    let stats = monitor.get_current_stats(3_200);
    assert_eq!(stats.bandwidth_usage, 700);
}

#[test]
fn bandwidth_with_no_recent_events_is_zero() {
    let mut monitor = PerformanceMonitor::new(0);
    monitor.record_packet_forwarded(700, 1_000);
    let stats = monitor.get_current_stats(10_000);
    assert_eq!(stats.bandwidth_usage, 0);
}

#[test]
fn full_event_history_evicts_the_oldest_event() {
    let mut monitor = PerformanceMonitor::new(0);
    // One more event than the history retains: the oldest is evicted, so
    // only a thousand one-byte events remain inside the look-back.
    for _ in 0..1001 {
        monitor.record_packet_forwarded(1, 500);
    }
    let stats = monitor.get_current_stats(600);
    assert_eq!(stats.bandwidth_usage, 1000);
}

#[test]
fn reset_clears_counters_but_not_the_uptime_origin() {
    let mut monitor = PerformanceMonitor::new(1_000);
    monitor.record_packet_received(100);
    monitor.record_packet_forwarded(100, 1_100);
    monitor.record_packet_dropped();
    monitor.record_processing_latency(10);
    monitor.reset_stats();
    let stats = monitor.get_current_stats(2_000);
    assert_eq!(stats.packets_received, 0);
    assert_eq!(stats.packets_forwarded, 0);
    assert_eq!(stats.packets_dropped, 0);
    assert_eq!(stats.average_latency, 0);
    assert_eq!(stats.packet_loss_rate, 0);
    assert_eq!(stats.bandwidth_usage, 0);
    assert_eq!(stats.uptime, 1_000);
}
