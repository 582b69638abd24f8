use director_narrative_core::micro_sector::MicroSectorTracker;
use director_narrative_core::race_event::RaceEvent;

/// Seconds (or another quantity) in millionths.
fn s(x: f64) -> i64 {
    (x * 1e6).round() as i64
}

#[test]
fn emits_gain_for_improved_anchor_run() {
    let mut tracker = MicroSectorTracker::new(20);
    for bucket in 0..20u8 {
        tracker.on_anchor_crossing(s(bucket as f64), bucket);
    }
    tracker.on_lap_end(1, s(60.0), true);

    for bucket in 0..20u8 {
        let t = if (12..=15).contains(&bucket) {
            bucket as f64 - 0.075 * (bucket - 11) as f64
        } else {
            bucket as f64
        };
        tracker.on_anchor_crossing(s(t), bucket);
    }
    let events = tracker.on_lap_end(2, s(120.0), true);
    assert!(events.iter().any(|event| matches!(
        event,
        RaceEvent::MicroSectorGain { bucket_from: 12, bucket_to: 15, .. }
    )));
    // The time is lost again at the anchor behind the run.
    assert!(events.iter().any(|event| matches!(
        event,
        RaceEvent::MicroSectorLoss { bucket_from: 16, bucket_to: 16, cumulative_delta_s: 300_000, .. }
    )));
    assert!(events.iter().any(|event| matches!(
        event,
        RaceEvent::MicroSectorGain {
            lap_dist_pct_from: 600_000,
            lap_dist_pct_to: 800_000,
            cumulative_delta_s: 300_000,
            technique_hint: "carried more speed",
            ..
        }
    )));
}

fn lap(tracker: &mut MicroSectorTracker, segment: f64, clean: bool, lap: u8) -> Vec<RaceEvent> {
    for bucket in 0..10u8 {
        tracker.on_anchor_crossing(s(segment * bucket as f64), bucket);
    }
    tracker.on_lap_end(lap, s(100.0), clean)
}

#[test]
fn an_unclean_lap_reports_nothing_and_changes_no_best() {
    let mut tracker = MicroSectorTracker::new(10);
    assert!(lap(&mut tracker, 2.0, true, 1).is_empty());
    assert!(lap(&mut tracker, 1.0, false, 2).is_empty());
    assert_eq!(tracker.best_seg[5], Some(s(2.0)));
    assert_eq!(lap(&mut tracker, 1.0, true, 3).len(), 1);
    assert_eq!(tracker.best_seg[5], Some(s(1.0)));
}

#[test]
fn jitter_is_no_loss() {
    let mut tracker = MicroSectorTracker::new(10);
    lap(&mut tracker, 2.0, true, 1);
    assert!(lap(&mut tracker, 2.004, true, 2).is_empty());
    // Nine segments of six thousandths each.
    let events = lap(&mut tracker, 2.006, true, 3);
    assert_eq!(events.len(), 1);
    assert!(matches!(events[0], RaceEvent::MicroSectorLoss { cumulative_delta_s: 54_000, .. }));
}
