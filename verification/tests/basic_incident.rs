use director_narrative_core::anchor_sampler::AnchorSampler;
use director_narrative_core::basic_incident::BasicIncidentDetector;
use director_narrative_core::car_registry::{CarRegistry, CarState};
use director_narrative_core::race_event::RaceEvent;

/// Seconds (or another quantity) in millionths.
fn s(x: f64) -> i64 {
    (x * 1e6).round() as i64
}

fn car(car_idx: u8, track_surface: i32, on_pit_road: bool, speed_ema_mps: f64) -> CarState {
    CarState {
        car_idx,
        car_number: car_idx.to_string(),
        driver_name: car_idx.to_string(),
        car_class_id: 1,
        current_position: car_idx + 1,
        current_lap: 4,
        lap_dist_pct: s(0.25),
        on_pit_road,
        track_surface,
        last_lap_time_s: 0,
        best_lap_time_s: 0,
        speed_ema_mps: s(speed_ema_mps),
        sampler: AnchorSampler::new(10),
        opponent_history: Vec::new(),
    }
}

#[test]
fn emits_basic_incident_on_surface_change_with_speed_drop() {
    let mut registry = CarRegistry::new();
    registry.insert(car(7, 3, false, 72.0), 0);

    let mut detector = BasicIncidentDetector::new();
    let first = detector.update(&registry, 4, s(120.0), 60, 7, 0);
    assert!(first.is_empty());

    registry.get_mut(7).unwrap().track_surface = 1;
    registry.get_mut(7).unwrap().speed_ema_mps = s(52.0);
    let events = detector.update(&registry, 4, s(121.0), 1_920, 7, 6);

    assert!(events.iter().any(|event| {
        matches!(
            event,
            RaceEvent::IncidentAlert {
                car_idx: 7,
                driver_incident_count: Some(6),
                ..
            }
        )
    }));

    let repeated = detector.update(&registry, 4, s(121.2), 1_950, 7, 6);
    assert!(repeated.is_empty(), "duplicate alert should be suppressed while condition remains active");
}

#[test]
fn ignores_pit_transitions() {
    let mut registry = CarRegistry::new();
    registry.insert(car(7, 3, false, 72.0), 0);

    let mut detector = BasicIncidentDetector::new();
    let _ = detector.update(&registry, 4, s(120.0), 60, 7, 0);

    registry.get_mut(7).unwrap().on_pit_road = true;
    registry.get_mut(7).unwrap().track_surface = 2;
    registry.get_mut(7).unwrap().speed_ema_mps = s(20.0);
    let events = detector.update(&registry, 4, s(121.0), 120, 7, 0);

    assert!(events.is_empty());
}

fn alert(before: CarState, after: CarState, player: u8) -> Option<(&'static str, i64, i64)> {
    let mut registry = CarRegistry::new();
    let mut detector = BasicIncidentDetector::new();
    registry.insert(before, 0);
    detector.update(&registry, 1, 0, 0, player, 0);
    registry.insert(after, 1);
    let events = detector.update(&registry, 1, s(1.0), 1, player, 0);
    assert!(events.len() <= 1);
    match events.first() {
        Some(RaceEvent::IncidentAlert { reason, severity, speed_drop_mps, .. }) => {
            Some((reason, *severity, *speed_drop_mps))
        }
        _ => None,
    }
}

#[test]
fn reasons_and_severity_of_incidents() {
    assert_eq!(
        alert(car(7, 3, false, 80.0), car(7, 1, false, 60.0), 0),
        Some(("surface_change_and_speed_drop", s(0.25), s(20.0)))
    );
    assert_eq!(
        alert(car(7, 3, false, 80.0), car(7, 3, false, 64.0), 0),
        Some(("speed_drop", s(0.2), s(16.0)))
    );
    assert_eq!(
        alert(car(7, 3, false, 80.0), car(7, 0, false, 80.0), 0),
        Some(("surface_drop", 0, 0))
    );
    assert_eq!(
        alert(car(7, 0, false, 80.0), car(7, 3, false, 80.0), 0),
        Some(("surface_change", 0, 0))
    );
    // More than four fifths of the speed are left.
    assert_eq!(alert(car(7, 3, false, 80.0), car(7, 3, false, 65.0), 0), None);
    // The loss is small.
    assert_eq!(alert(car(7, 3, false, 20.0), car(7, 3, false, 13.0), 0), None);
}

fn points(surface: i32, on_pit_road: bool, speed: f64, from: i32, to: i32) -> Vec<RaceEvent> {
    let mut registry = CarRegistry::new();
    let mut detector = BasicIncidentDetector::new();
    registry.insert(car(7, surface, on_pit_road, speed), 0);
    detector.update(&registry, 1, 0, 0, 7, from);
    detector.update(&registry, 1, s(1.0), 1, 7, to)
}

#[test]
fn incident_points_count_on_the_track_and_at_speed() {
    let events = points(3, false, 40.0, 2, 4);
    assert_eq!(events.len(), 1);
    assert!(matches!(
        events[0],
        RaceEvent::IncidentAlert {
            car_idx: 7,
            driver_incident_count: Some(4),
            severity: 2_000_000,
            severity_normalized: 500_000,
            incident_count_delta: Some(2),
            reason: "incident_count_increase",
            ..
        }
    ));
    assert!(points(3, false, 40.0, 4, 4).is_empty());
    assert!(points(3, true, 40.0, 2, 4).is_empty());
    assert!(points(-1, false, 40.0, 2, 4).is_empty());
    assert!(points(3, false, 4.0, 2, 4).is_empty());
}
