use can_monitor_1_rust::log::{Event, EventLog, LogEntry};
use can_monitor_1_rust::sensor::{SensorHealth, STUCK_THRESHOLD};

#[test]
fn new_health_counts_are_zero() {
    let h = SensorHealth::new();
    assert_eq!(h.top_stuck_count(), 0);
    assert_eq!(h.bottom_stuck_count(), 0);
    assert_eq!(h.both_stuck_count(), 0);
}

#[test]
fn top_stuck_reported_at_threshold_only() {
    let mut h = SensorHealth::new();
    let mut log = EventLog::new();
    for _ in 1..STUCK_THRESHOLD {
        assert!(h.check(true, false, &mut log));
    }
    assert!(log.dump_logs().is_empty());
    assert!(!h.check(true, false, &mut log));
    assert_eq!(h.top_stuck_count(), STUCK_THRESHOLD);
    assert_eq!(log.dump_logs(), vec![LogEntry { timestamp_ms: 0, event: Event::SensorTopStuck }]);
    assert!(h.check(true, false, &mut log));
    assert_eq!(log.dump_logs().len(), 1);
}

#[test]
fn top_count_saturates() {
    let mut h = SensorHealth::new();
    let mut log = EventLog::new();
    for _ in 0..70000u32 {
        h.check(true, false, &mut log);
    }
    assert_eq!(h.top_stuck_count(), u16::MAX);
    assert!(h.check(true, false, &mut log));
    assert_eq!(log.dump_logs().len(), 1);
}

#[test]
fn other_readings_reset_the_count() {
    for (top, bottom) in [(false, false), (false, true), (true, true)] {
        let mut h = SensorHealth::new();
        let mut log = EventLog::new();
        for _ in 0..10 {
            h.check(true, false, &mut log);
        }
        assert!(h.check(top, bottom, &mut log));
        assert_eq!(h.top_stuck_count(), 0);
        assert_eq!(h.bottom_stuck_count(), 0);
        assert_eq!(h.both_stuck_count(), 0);
    }
}
