use director_narrative_core::lifecycle::{HeartbeatScheduler, LifecyclePublisher};
use director_narrative_core::race_event::RaceEvent;

/// Seconds (or another quantity) in millionths.
fn s(x: f64) -> i64 {
    (x * 1e6).round() as i64
}

#[test]
fn on_activate_emits_hello() {
    let mut lc = LifecyclePublisher::new("0.1.0");
    let event = lc.on_activate(1, s(10.0));
    assert!(
        matches!(event, RaceEvent::PublisherHello { version, scope, .. }
            if version == "0.1.0" && scope == "driver")
    );
}

#[test]
fn on_deactivate_emits_goodbye() {
    let lc = LifecyclePublisher::new("0.1.0");
    let event = lc.on_deactivate(5, s(250.0));
    assert!(matches!(event, RaceEvent::PublisherGoodbye { lap: 5, .. }));
}

#[test]
fn heartbeat_emits_heartbeat_event() {
    let lc = LifecyclePublisher::new("0.1.0");
    let event = lc.heartbeat(7, s(321.5), 42);
    assert!(
        matches!(event, RaceEvent::PublisherHeartbeat { lap: 7, version, events_enqueued_total: 42, .. }
            if version == "0.1.0")
    );
}

#[test]
fn heartbeat_scheduler_fires_after_interval() {
    let mut hb = HeartbeatScheduler::new(1000);
    let t0 = 77_000;
    assert!(!hb.due(t0));
    assert!(!hb.due(t0 + 500));
    assert!(hb.due(t0 + 1000));
    assert!(!hb.due(t0 + 1500));
    assert!(hb.due(t0 + 2000));
}

#[test]
fn heartbeat_scheduler_zero_interval_disables() {
    let mut hb = HeartbeatScheduler::new(0);
    let t0 = 77_000;
    assert!(!hb.due(t0));
    assert!(!hb.due(t0 + 3600 * 1000));
}

#[test]
fn is_fresh_is_true_before_activate() {
    let mut lc = LifecyclePublisher::new("0.1.0");
    assert!(lc.is_fresh());
    let _ = lc.on_activate(1, s(0.0));
    assert!(!lc.is_fresh());
}

#[test]
fn a_clock_that_runs_backwards_fires_nothing() {
    let mut hb = HeartbeatScheduler::new(1000);
    assert!(!hb.due(5_000));
    assert!(!hb.due(1_000));
    assert!(hb.due(6_000));
}
