use etwkit::stats::{SessionStats, StatsTracker};

#[test]
fn test_stats_tracker() {
    let mut tracker = StatsTracker::new(64, 64);

    tracker.record_event_received();
    tracker.record_event_received();
    tracker.record_event_processed();
    tracker.record_events_lost(5);

    let stats = tracker.snapshot();
    assert_eq!(stats.events_received, 2);
    assert_eq!(stats.events_processed, 1);
    assert_eq!(stats.events_lost, 5);
}

#[test]
fn test_stats_reset() {
    let mut tracker = StatsTracker::new(64, 64);

    tracker.record_event_received();
    tracker.record_events_lost(10);
    tracker.reset();

    let stats = tracker.snapshot();
    assert_eq!(stats.events_received, 0);
    assert_eq!(stats.events_lost, 0);
}

#[test]
fn test_default_stats() {
    let stats = SessionStats::default();
    assert_eq!(stats.events_received, 0);
    assert_eq!(stats.buffer_size_kb, 64);
}

#[test]
fn test_reset_keeps_elapsed_time() {
    let mut tracker = StatsTracker::new(64, 64);
    tracker.record_event_received();
    tracker.record_buffers_lost(3);
    tracker.record_buffer_read();
    // Let a measurable amount of monotonic time pass.
    let mut snapshot = tracker.snapshot();
    let mut spins = 0u64;
    while snapshot.duration_nanos == 0 && spins < 100_000_000 {
        spins += 1;
        snapshot = tracker.snapshot();
    }
    assert!(snapshot.duration_nanos > 0);
    tracker.reset();
    let after = tracker.snapshot();
    assert_eq!(after.events_received, 0);
    assert_eq!(after.events_processed, 0);
    assert_eq!(after.events_lost, 0);
    assert_eq!(after.buffers_lost, 0);
    assert_eq!(after.buffers_read, 0);
    // The start time is kept: elapsed time goes on accumulating.
    assert!(after.duration_nanos > 0);
}

#[test]
fn test_buffer_counters() {
    let mut tracker = StatsTracker::new(128, 32);
    tracker.record_buffers_lost(2);
    tracker.record_buffer_read();
    tracker.record_buffer_read();
    tracker.record_buffer_read();
    let stats = tracker.snapshot();
    assert_eq!(stats.buffers_lost, 2);
    assert_eq!(stats.buffers_read, 3);
    assert_eq!(stats.buffer_size_kb, 128);
    assert_eq!(stats.buffers_allocated, 32);
    assert!(stats.start_time >= 0);
}

#[test]
fn test_loss_percentage() {
    let mut stats = SessionStats::default();
    assert_eq!(stats.loss_percentage(), 0);
    assert!(!stats.has_loss());
    stats.events_received = 75;
    stats.events_lost = 25;
    assert_eq!(stats.loss_percentage(), 25);
    assert!(stats.has_loss());
    stats.events_received = 0;
    stats.events_lost = 10;
    assert_eq!(stats.loss_percentage(), 100);
}
