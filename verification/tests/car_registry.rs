use director_narrative_core::anchor_sampler::AnchorSampler;
use director_narrative_core::battle_state::BattleState;
use director_narrative_core::car_registry::{CarRegistry, CarState};
use director_narrative_core::session_info::{CarRef, SessionRoster};
use director_narrative_core::telemetry_frame::TelemetryFrame;

/// Seconds (or another quantity) in millionths.
fn s(x: f64) -> i64 {
    (x * 1e6).round() as i64
}

fn roster() -> SessionRoster {
    SessionRoster::from_cars(vec![
        CarRef {
            car_idx: 0,
            car_number: "01".into(),
            driver_name: "Player".into(),
            team_name: None,
            car_class_short_name: Some("LMP2".into()),
            car_class_id: Some(1),
            user_id: None,
            irating: None,
            lic_string: None,
            flair_name: None,
        },
        CarRef {
            car_idx: 1,
            car_number: "11".into(),
            driver_name: "GT3 A".into(),
            team_name: None,
            car_class_short_name: Some("GT3".into()),
            car_class_id: Some(2),
            user_id: None,
            irating: None,
            lic_string: None,
            flair_name: None,
        },
    ])
}

fn frame(on_pit: bool, pos1: u8, tick: i64) -> TelemetryFrame {
    TelemetryFrame {
        lap: 3,
        session_time: tick * 1_000_000 / 60,
        lap_dist_pct: s(0.2),
        player_car_idx: 0,
        player_car_position: 2,
        on_pit_road: false,
        session_flags: 0,
        car_idx_lap_dist_pct: vec![s(0.2), s(0.4)],
        car_idx_position: vec![2, pos1],
        car_idx_on_pit_road: vec![false, on_pit],
        car_idx_track_surface: vec![0, 0],
        lap_last_lap_time: s(90.0),
        session_info_update: 0,
        session_tick: tick,
        session_state: 4,
        session_num: 0,
        player_incident_count: 0,
        car_idx_lap_completed: vec![3, 3],
        lf_temp_m: 0,
        rf_temp_m: 0,
        lr_temp_m: 0,
        rr_temp_m: 0,
        fuel_level: 0,
        throttle: 0,
        brake: 0,
        speed: 0,
    }
}

#[test]
fn slot_allocation() {
    let mut registry = CarRegistry::new();
    registry.update_from_frame(&frame(false, 1, 0), &roster(), 0, 12);
    assert!(registry.get(0).is_some());
    assert!(registry.get(1).is_some());
}

#[test]
fn pit_cycle_continuity() {
    let mut registry = CarRegistry::new();
    registry.update_from_frame(&frame(false, 1, 0), &roster(), 0, 12);
    registry.update_from_frame(&frame(true, 1, 60), &roster(), 60, 12);
    let car = registry.get(1).expect("car should persist through pit");
    assert!(car.on_pit_road);
    assert_eq!(car.driver_name, "GT3 A");
}

#[test]
fn disconnect_expiry() {
    let mut registry = CarRegistry::new();
    registry.update_from_frame(&frame(false, 1, 0), &roster(), 0, 12);
    registry.update_from_frame(&frame(false, 0, 3701), &roster(), 3701, 12);
    assert!(registry.get(1).is_none());
}

#[test]
fn multi_class_car_classification() {
    let mut registry = CarRegistry::new();
    registry.update_from_frame(&frame(false, 1, 0), &roster(), 0, 12);
    assert_eq!(registry.get(0).unwrap().car_class_id, 1);
    assert_eq!(registry.get(1).unwrap().car_class_id, 2);
}

#[test]
fn classes_are_counted_once_each() {
    let mut registry = CarRegistry::new();
    assert_eq!(registry.class_count(), 0);
    registry.update_from_frame(&frame(false, 1, 0), &roster(), 0, 12);
    assert_eq!(registry.class_count(), 2);
}

#[test]
fn a_car_that_returns_in_time_is_remembered() {
    let mut registry = CarRegistry::new();
    registry.update_from_frame(&frame(false, 1, 0), &roster(), 0, 12);
    registry.update_opponent_history(1, 0, &BattleState::Push, false, 2);
    registry.update_from_frame(&frame(false, 0, 3000), &roster(), 3000, 12);
    assert_eq!(registry.active_cars().len(), 2);
    registry.update_from_frame(&frame(false, 1, 3600), &roster(), 3600, 12);
    assert_eq!(registry.get(1).unwrap().opponent_history.len(), 1);
}

#[test]
fn history_counts_skirmishes_and_attack_time() {
    let mut registry = CarRegistry::new();
    registry.update_from_frame(&frame(false, 1, 0), &roster(), 0, 12);
    assert_eq!(registry.prior_with(0, 1), (0, 0));
    registry.update_opponent_history(0, 1, &BattleState::Tracking, false, 3);
    registry.update_opponent_history(0, 1, &BattleState::AttackSetup, false, 4);
    let h = registry.find_opponent_history_mut(0, 1).unwrap();
    assert_eq!(h.car_idx, 1);
    assert_eq!(h.first_seen_lap, 3);
    assert_eq!(h.last_engaged_lap, Some(4));
    assert_eq!(h.last_state_forward, BattleState::AttackSetup);
    assert!(registry.find_opponent_history_mut(0, 9).is_none());
    assert_eq!(registry.prior_with(0, 1), (1, s(60.0)));
    // A pit lap adds nothing.
    registry.update_opponent_history(0, 1, &BattleState::AttackSetup, true, 5);
    assert_eq!(registry.prior_with(0, 1), (1, s(60.0)));
}

#[test]
fn cars_are_listed_by_index() {
    let mut registry = CarRegistry::new();
    for idx in [7u8, 3, 250, 63] {
        registry.insert(
            CarState {
                car_idx: idx,
                car_number: idx.to_string(),
                driver_name: String::new(),
                car_class_id: 1,
                current_position: 1,
                current_lap: 1,
                lap_dist_pct: 0,
                on_pit_road: false,
                track_surface: 3,
                last_lap_time_s: 0,
                best_lap_time_s: 0,
                speed_ema_mps: 0,
                sampler: AnchorSampler::new(10),
                opponent_history: Vec::new(),
            },
            0,
        );
    }
    let order: Vec<u8> = registry.active_cars().iter().map(|c| c.car_idx).collect();
    // There are 64 slots; a car beyond them is not kept.
    assert_eq!(order, vec![3, 7, 63]);
}
