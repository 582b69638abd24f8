use director_narrative_core::anchor_sampler::{bucket_at, AnchorSampler};
use director_narrative_core::battle_state::{
    classify, place_of, BattleState, ATTACK_SLOPE_THRESHOLD, PUSH_SLOPE_THRESHOLD,
};
use director_narrative_core::fixed::{minus, plus, quotient, round_to, unit_clamp};
use director_narrative_core::gap_finder::{
    find_cars_ahead, find_cars_behind, gap_between, Side, MAX_BATTLE_GAP_S,
};
use director_narrative_core::lap_timer::{LapTimer, NURBURGRING_LAP_EST_S};
use director_narrative_core::rank::{insert_in_rank, median};
use director_narrative_core::regression_store::{ols_slope, CarSlopeInfo, RegressionStore};
use director_narrative_core::telemetry_frame::TelemetryFrame;

/// Seconds (or another quantity) in millionths.
fn s(x: f64) -> i64 {
    (x * 1e6).round() as i64
}

#[test]
fn first_crossing_captured() {
    let mut sampler = AnchorSampler::new(10);
    assert!(sampler.update(1, s(0.55), s(1.2), 7, true));
    assert_eq!(sampler.samples().len(), 1);
    let r = sampler.samples()[0];
    assert_eq!((r.lap, r.bucket, r.gap_s, r.car_idx, r.is_clean), (1, 5, s(1.2), 7, true));
}

#[test]
fn duplicate_crossing_ignored() {
    let mut sampler = AnchorSampler::new(10);
    assert!(sampler.update(1, s(0.55), s(1.2), 7, true));
    assert!(!sampler.update(1, s(0.56), s(1.1), 7, true));
    assert_eq!(sampler.samples().len(), 1);
    assert_eq!(sampler.samples()[0].gap_s, s(1.2));
    assert!(sampler.update(2, s(0.56), s(1.1), 7, true));
}

#[test]
fn different_car_idx_tracked_independently() {
    let mut sampler = AnchorSampler::new(10);
    assert!(sampler.update(1, s(0.55), s(1.2), 7, true));
    assert!(sampler.update(1, s(0.55), s(2.2), 8, true));
    assert_eq!(sampler.samples().len(), 2);
}

#[test]
fn ingest_excludes_frames_beyond_max_lap() {
    let mut sampler = AnchorSampler::new(10);
    sampler.update(1, s(0.55), s(3.0), 7, true);
    sampler.update(2, s(0.55), s(2.5), 7, true);
    sampler.update(3, s(0.55), s(9.0), 7, true);
    let mut store = RegressionStore::new();
    store.ingest(&sampler, 2);
    assert_eq!(store.slope_at(2, 5, 7), Some(s(-0.5)));
    store.ingest(&sampler, 3);
    assert_eq!(store.slope_at(2, 5, 7), Some(s(3.0)));
    store.ingest(&sampler, 1);
    assert_eq!(store.slope_at(2, 5, 7), None);
}

#[test]
fn unclean_readings_do_not_count() {
    let mut sampler = AnchorSampler::new(10);
    sampler.update(1, s(0.55), s(3.0), 7, true);
    sampler.update(2, s(0.55), s(0.1), 7, false);
    sampler.update(3, s(0.55), s(2.0), 7, true);
    let mut store = RegressionStore::default();
    store.ingest(&sampler, 9);
    assert_eq!(store.slope_at(2, 5, 7), Some(s(-0.5)));
    assert_eq!(store.slope_at(3, 5, 7), None);
}

#[test]
fn anchors_divide_the_lap_evenly() {
    assert_eq!(bucket_at(0, 10), 0);
    assert_eq!(bucket_at(s(0.099), 10), 0);
    assert_eq!(bucket_at(s(0.1), 10), 1);
    assert_eq!(bucket_at(s(0.999), 10), 9);
    assert_eq!(bucket_at(s(1.0), 10), 0);
    assert_eq!(bucket_at(s(-0.5), 10), 0);
    assert_eq!(place_of(3, 20), s(0.15));
}

#[test]
fn slope_is_the_least_squares_line() {
    assert_eq!(ols_slope(&vec![(1, s(3.0)), (2, s(2.5)), (3, s(2.0))]), Some(s(-0.5)));
    // The line through 1, 2, 2 has a slope of one half.
    assert_eq!(ols_slope(&vec![(1, s(1.0)), (2, s(2.0)), (3, s(2.0))]), Some(s(0.5)));
    assert_eq!(ols_slope(&vec![(1, s(1.0))]), None);
    assert_eq!(ols_slope(&vec![(4, s(1.0)), (4, s(2.0))]), None);
}

#[test]
fn a_constant_offset_leaves_the_slope_alone() {
    let plain = vec![(1, s(3.0)), (2, s(2.6)), (3, s(2.5))];
    let shifted: Vec<(u8, i64)> = plain.iter().map(|(lap, gap)| (*lap, gap + s(0.7))).collect();
    assert_eq!(ols_slope(&plain), ols_slope(&shifted));
}

fn closing_sampler() -> AnchorSampler {
    let mut sampler = AnchorSampler::new(4);
    for (lap, gap) in [(1u8, 3.0), (2, 2.8), (3, 2.6)] {
        for k in 0..3u8 {
            let place = s(k as f64 / 4.0 + 0.1);
            // Car 7 closes at 0.2 a lap, faster by 0.1 at the third anchor.
            let extra = if k == 2 { 0.1 * (lap as f64 - 1.0) } else { 0.0 };
            sampler.update(lap, place, s(gap - extra), 7, true);
            sampler.update(lap, place, s(1.0), 9, true);
        }
    }
    sampler
}

#[test]
fn slopes_by_anchor_and_by_car() {
    let mut store = RegressionStore::new();
    store.ingest(&closing_sampler(), 3);
    assert_eq!(
        store.per_bucket_slopes(2),
        vec![(0, s(-0.2)), (1, s(-0.2)), (2, s(-0.3))]
    );
    assert_eq!(
        store.per_car_median_slopes(2),
        vec![
            (7, CarSlopeInfo { median: s(-0.2), n_buckets: 3, n_agree: 3 }),
            (9, CarSlopeInfo { median: 0, n_buckets: 3, n_agree: 0 }),
        ]
    );
}

#[test]
fn the_fastest_closer_is_the_threat() {
    let mut store = RegressionStore::new();
    store.ingest(&closing_sampler(), 3);
    let cars = store.per_car_median_slopes(2);
    let anchors = store.per_bucket_slopes(2);
    let c = classify(&cars, &anchors, 4, None, false);
    assert_eq!(c.state, BattleState::Push);
    assert_eq!(c.threat_car, Some(7));
    let info = c.slope_info.unwrap();
    assert_eq!(info.median_slope, s(-0.2));
    assert_eq!(info.hotspot_lap_dist_pct, s(0.5));
    // Steeper than the lap before: an attack. No steeper: still a push.
    assert_eq!(classify(&cars, &anchors, 4, Some(s(-0.1)), false).state, BattleState::AttackSetup);
    assert_eq!(classify(&cars, &anchors, 4, Some(s(-0.2)), false).state, BattleState::Push);
    // A pit lap says nothing, and without slopes there is only watching.
    assert_eq!(classify(&cars, &anchors, 4, None, true).state, BattleState::Idle);
    assert_eq!(classify(&vec![], &vec![], 4, None, false).state, BattleState::Tracking);
}

fn verdict(median: i64, n_buckets: usize, prev: Option<i64>) -> BattleState {
    let cars = vec![(1u8, CarSlopeInfo { median, n_buckets, n_agree: n_buckets })];
    classify(&cars, &vec![], 10, prev, false).state
}

#[test]
fn thresholds_of_push_and_attack() {
    assert_eq!(verdict(PUSH_SLOPE_THRESHOLD, 2, None), BattleState::Push);
    assert_eq!(verdict(PUSH_SLOPE_THRESHOLD + 1, 2, None), BattleState::Tracking);
    assert_eq!(verdict(PUSH_SLOPE_THRESHOLD, 1, None), BattleState::Tracking);
    assert_eq!(verdict(ATTACK_SLOPE_THRESHOLD, 3, Some(0)), BattleState::AttackSetup);
    assert_eq!(verdict(ATTACK_SLOPE_THRESHOLD, 2, Some(0)), BattleState::Push);
    assert_eq!(verdict(ATTACK_SLOPE_THRESHOLD + 1, 3, Some(0)), BattleState::Push);
}

fn field(places: Vec<f64>, positions: Vec<u8>) -> TelemetryFrame {
    TelemetryFrame {
        lap: 2,
        session_time: 0,
        lap_dist_pct: s(places[0]),
        player_car_idx: 0,
        player_car_position: positions[0],
        on_pit_road: false,
        session_flags: 0,
        car_idx_lap_dist_pct: places.iter().map(|p| s(*p)).collect(),
        car_idx_position: positions,
        car_idx_on_pit_road: vec![],
        car_idx_track_surface: vec![],
        lap_last_lap_time: 0,
        session_info_update: 0,
        session_tick: 0,
        session_state: 4,
        session_num: 0,
        player_incident_count: 0,
        car_idx_lap_completed: vec![],
        lf_temp_m: 0,
        rf_temp_m: 0,
        lr_temp_m: 0,
        rr_temp_m: 0,
        fuel_level: 0,
        throttle: 0,
        brake: 0,
        speed: 0,
    }
}

#[test]
fn rivals_are_found_nearest_first_and_across_the_line() {
    let frame = field(vec![0.99, 0.02, 0.995, 0.98, -1.0, 0.96], vec![5, 3, 4, 6, 2, 7]);
    assert_eq!(find_cars_ahead(&frame, s(100.0), 5), vec![(2, s(0.5)), (1, s(3.0))]);
    assert_eq!(find_cars_behind(&frame, s(100.0), 5), vec![(3, s(1.0)), (5, s(3.0))]);
    assert_eq!(find_cars_ahead(&frame, s(100.0), 1), vec![(2, s(0.5))]);
    // Beyond five seconds there is no battle.
    assert_eq!(MAX_BATTLE_GAP_S, s(5.0));
    assert_eq!(find_cars_ahead(&frame, s(200.0), 5), vec![(2, s(1.0))]);
    assert_eq!(gap_between(s(0.5), s(0.501), Side::Ahead, s(540.0)), s(0.54));
    assert_eq!(gap_between(s(0.5), s(0.499), Side::Behind, s(540.0)), s(0.54));
}

#[test]
fn lap_times_from_the_first_frame_of_each_lap() {
    let mut timer = LapTimer::new();
    assert_eq!(timer.best_estimate(), NURBURGRING_LAP_EST_S);
    timer.update(1, s(10.0));
    timer.update(1, s(50.0));
    assert_eq!(timer.completed(1), None);
    timer.update(2, s(110.0));
    assert_eq!(timer.completed(1), Some(s(100.0)));
    assert_eq!(timer.best_estimate(), s(100.0));
    // A lap whose predecessor was missed is not timed.
    timer.update(5, s(500.0));
    assert_eq!(timer.completed(4), None);
    assert_eq!(timer.best_estimate(), s(100.0));
}

#[test]
fn ranks_and_medians() {
    let mut v = Vec::new();
    for (n, x) in [(1u8, 5i64), (2, 1), (3, 5), (4, 3)] {
        insert_in_rank(&mut v, (n, x));
    }
    assert_eq!(v, vec![(2, 1), (4, 3), (1, 5), (3, 5)]);
    assert_eq!(median(&v), 4);
    assert_eq!(median(&vec![(1, 2), (2, 7), (3, 9)]), 7);
}

#[test]
fn fixed_point_arithmetic() {
    assert_eq!(plus(i64::MAX, 1), i64::MAX);
    assert_eq!(minus(i64::MIN, 1), i64::MIN);
    assert_eq!(plus(2, 3), 5);
    assert_eq!(quotient(-7, 2), -4);
    assert_eq!(quotient(7, 2), 3);
    assert_eq!(unit_clamp(s(1.5)), s(1.0));
    assert_eq!(unit_clamp(s(-0.1)), 0);
    assert_eq!(round_to(1_500, 1_000), 2);
    assert_eq!(round_to(2_500, 1_000), 2);
    assert_eq!(round_to(2_501, 1_000), 3);
}
