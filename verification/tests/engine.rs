use director_narrative_core::engine::{clean_frame, NarrativeEngine};
use director_narrative_core::race_event::{FlagScope, LifecycleOrigin, RaceEvent};
use director_narrative_core::session_info::{CarRef, SessionRoster};
use director_narrative_core::telemetry_frame::TelemetryFrame;

/// Seconds (or another quantity) in millionths.
fn s(x: f64) -> i64 {
    (x * 1e6).round() as i64
}

fn base(lap: u8, t: f64) -> TelemetryFrame {
    TelemetryFrame {
        lap,
        session_time: s(t),
        lap_dist_pct: s(0.5),
        player_car_idx: 0,
        player_car_position: 5,
        on_pit_road: false,
        session_flags: 0,
        car_idx_lap_dist_pct: vec![s(0.5)],
        car_idx_position: vec![5],
        car_idx_on_pit_road: vec![false],
        car_idx_track_surface: vec![],
        lap_last_lap_time: 0,
        session_info_update: 0,
        session_tick: 0,
        session_state: 4,
        session_num: 0,
        player_incident_count: 0,
        car_idx_lap_completed: vec![],
        lf_temp_m: 0,
        rf_temp_m: 0,
        lr_temp_m: 0,
        rr_temp_m: 0,
        fuel_level: 0,
        throttle: 0,
        brake: 0,
        speed: 0,
    }
}

/// Player is car 0 at position 5; `opponent_ldp` places car 1 just ahead.
fn frame_with_gap(lap: u8, t: f64, session_state: i32, opponent_ldp: f64) -> TelemetryFrame {
    TelemetryFrame {
        session_state,
        car_idx_lap_dist_pct: vec![s(0.500), s(opponent_ldp)],
        car_idx_position: vec![5, 4],
        car_idx_on_pit_road: vec![false, false],
        ..base(lap, t)
    }
}

/// Frame with no car ahead.
fn frame_no_opponent(lap: u8, t: f64) -> TelemetryFrame {
    TelemetryFrame {
        car_idx_lap_dist_pct: vec![s(0.500), s(-1.0)],
        car_idx_position: vec![5, 0],
        car_idx_on_pit_road: vec![false, false],
        ..base(lap, t)
    }
}

#[test]
fn battle_engaged_fires_on_lap_1() {
    // Gap 0.001 * 540 (fallback) = 0.54 s < CLOSE_APPROACH_THRESH_S (1.5 s)
    let mut engine = NarrativeEngine::new(10);
    let mut all_events: Vec<RaceEvent> = Vec::new();
    for i in 0..6u8 {
        let evs = engine.process_frame(&frame_with_gap(1, i as f64, 4, 0.501));
        all_events.extend(evs);
    }
    let engaged = all_events.iter().find(|e| {
        matches!(e, RaceEvent::BattleEngaged { lap: 1, opponent_car_idx: 1, .. })
    });
    assert!(engaged.is_some(), "BATTLE_ENGAGED should fire on lap 1");
}

#[test]
fn battle_broken_fires_after_engaged() {
    let mut engine = NarrativeEngine::new(10);
    let mut all_events: Vec<RaceEvent> = Vec::new();

    // Trigger BattleEngaged (5+ frames within gap)
    for i in 0..6u8 {
        let evs = engine.process_frame(&frame_with_gap(1, i as f64, 4, 0.501));
        all_events.extend(evs);
    }
    assert!(
        all_events.iter().any(|e| matches!(e, RaceEvent::BattleEngaged { opponent_car_idx: 1, .. })),
        "prerequisite: BattleEngaged should fire first"
    );

    // Now remove the opponent: BattleBroken should fire
    let evs = engine.process_frame(&frame_no_opponent(1, 6.0));
    let broken = evs.iter().any(|e| matches!(e, RaceEvent::BattleBroken { opponent_car_idx: 1, .. }));
    assert!(broken, "BATTLE_BROKEN should fire when the engaged opponent disappears");
}

#[test]
fn race_green_fires_on_session_state_transition() {
    let mut engine = NarrativeEngine::new(10);

    // Frame in ParadeLaps (state=3): no RACE_GREEN
    let evs1 = engine.process_frame(&frame_with_gap(0, 0.0, 3, 0.501));
    assert!(
        !evs1.iter().any(|e| matches!(e, RaceEvent::RaceGreen { .. })),
        "RACE_GREEN should NOT fire for state 3"
    );

    // Transition to Racing (state=4): RACE_GREEN fires
    let evs2 = engine.process_frame(&frame_with_gap(1, 1.0, 4, 0.501));
    assert!(
        evs2.iter().any(|e| matches!(e, RaceEvent::RaceGreen { .. })),
        "RACE_GREEN should fire when SessionState transitions to 4"
    );

    // Second Racing frame: RACE_GREEN should NOT fire again
    let evs3 = engine.process_frame(&frame_with_gap(1, 2.0, 4, 0.501));
    assert!(
        !evs3.iter().any(|e| matches!(e, RaceEvent::RaceGreen { .. })),
        "RACE_GREEN should only fire once per transition"
    );
}

#[test]
fn battle_begins_with_the_fifth_close_frame_and_tells_its_gap() {
    let mut engine = NarrativeEngine::new(10);
    for i in 0..4u8 {
        let evs = engine.process_frame(&frame_with_gap(1, i as f64, 4, 0.501));
        assert!(!evs.iter().any(|e| matches!(e, RaceEvent::BattleEngaged { .. })));
    }
    let evs = engine.process_frame(&frame_with_gap(1, 4.0, 4, 0.501));
    let mut gaps = Vec::new();
    for e in &evs {
        if let RaceEvent::BattleEngaged { gap_s, car_race_position, session_time, .. } = e {
            gaps.push((*gap_s, *car_race_position, *session_time));
        }
    }
    assert_eq!(gaps, vec![(s(0.54), 4, s(4.0))]);
    // It is not reported again while it lasts.
    for i in 5..100u8 {
        let evs = engine.process_frame(&frame_with_gap(1, i as f64, 4, 0.501));
        assert!(evs.is_empty());
    }
}

#[test]
fn battle_breaks_when_the_gap_opens() {
    let mut engine = NarrativeEngine::new(10);
    for i in 0..6u8 {
        engine.process_frame(&frame_with_gap(1, i as f64, 4, 0.501));
    }
    // 0.005 of a 540 s lap is 2.7 s: in sight, but not close.
    let evs = engine.process_frame(&frame_with_gap(1, 20.0, 4, 0.505));
    assert_eq!(evs.len(), 1);
    match &evs[0] {
        RaceEvent::BattleBroken { final_gap_sec, engagement_started_at_session_time_s, .. } => {
            assert_eq!(*final_gap_sec, Some(s(2.7)));
            assert_eq!(*engagement_started_at_session_time_s, s(4.0));
        }
        _ => panic!("expected BattleBroken"),
    }
    // No second end, and no new battle within half a minute.
    assert!(engine.process_frame(&frame_with_gap(1, 21.0, 4, 0.505)).is_empty());
    for i in 22..34u8 {
        assert!(engine.process_frame(&frame_with_gap(1, i as f64, 4, 0.501)).is_empty());
    }
    assert!(engine.process_frame(&frame_with_gap(1, 34.0, 4, 0.501)).is_empty());
    let evs = engine.process_frame(&frame_with_gap(1, 34.5, 4, 0.501));
    assert!(matches!(evs[0], RaceEvent::BattleEngaged { opponent_car_idx: 1, .. }));
}

#[test]
fn first_frame_of_a_running_race_is_a_synthetic_green() {
    let mut engine = NarrativeEngine::new(10);
    let evs = engine.process_frame(&base(1, 0.0));
    assert!(evs.iter().any(|e| matches!(
        e,
        RaceEvent::RaceGreen { synthetic: true, origin: LifecycleOrigin::ConnectSnapshot, .. }
    )));
}

#[test]
fn checkered_is_reported_once_by_state_flag_or_cool_down() {
    let mut by_state = NarrativeEngine::new(10);
    by_state.process_frame(&base(1, 0.0));
    let end = TelemetryFrame { session_state: 5, ..base(9, 1.0) };
    let evs = by_state.process_frame(&end);
    assert!(evs.iter().any(|e| matches!(
        e,
        RaceEvent::RaceCheckered {
            synthetic: false,
            origin: LifecycleOrigin::SessionStateTransition,
            ..
        }
    )));
    let cool = TelemetryFrame { session_state: 6, session_flags: 1, ..base(9, 2.0) };
    let evs = by_state.process_frame(&cool);
    assert!(!evs.iter().any(|e| matches!(e, RaceEvent::RaceCheckered { .. })));

    let mut by_flag = NarrativeEngine::new(10);
    by_flag.process_frame(&base(1, 0.0));
    let flagged = TelemetryFrame { session_flags: 0x0001, ..base(1, 1.0) };
    let evs = by_flag.process_frame(&flagged);
    assert!(evs.iter().any(|e| matches!(e, RaceEvent::RaceCheckered { .. })));

    let mut by_jump = NarrativeEngine::new(10);
    by_jump.process_frame(&base(1, 0.0));
    let jump = TelemetryFrame { session_state: 6, ..base(1, 1.0) };
    let evs = by_jump.process_frame(&jump);
    assert!(evs.iter().any(|e| matches!(e, RaceEvent::RaceCheckered { .. })));
}

#[test]
fn yellows_are_reported_when_they_come_up() {
    let mut engine = NarrativeEngine::new(10);
    engine.process_frame(&base(3, 0.0));
    let local = TelemetryFrame { session_flags: 0x0100, ..base(3, 1.0) };
    let evs = engine.process_frame(&local);
    assert!(evs.iter().any(|e| matches!(e, RaceEvent::FlagYellowLocal { scope: FlagScope::Unknown, .. })));
    let still = TelemetryFrame { session_flags: 0x0100, ..base(3, 2.0) };
    assert!(engine.process_frame(&still).is_empty());
    let full = TelemetryFrame { session_flags: 0x4100, ..base(3, 3.0) };
    let evs = engine.process_frame(&full);
    assert!(evs.iter().any(|e| matches!(e, RaceEvent::FlagYellowFullCourse { .. })));
}

#[test]
fn pit_road_is_reported_on_the_way_in_and_out() {
    let mut engine = NarrativeEngine::new(10);
    engine.process_frame(&base(3, 0.0));
    let lane = TelemetryFrame { on_pit_road: true, ..base(3, 1.0) };
    let evs = engine.process_frame(&lane);
    assert!(matches!(evs[0], RaceEvent::PitEntry { lap: 3, position: 5, .. }));
    // A car in its box may report no position; it still leaves.
    let out = TelemetryFrame { player_car_position: 0, ..base(3, 2.0) };
    let evs = engine.process_frame(&out);
    assert!(matches!(evs[0], RaceEvent::PitExit { lap: 3, position: 0, .. }));
}

#[test]
fn driver_enters_and_leaves_the_car() {
    let mut engine = NarrativeEngine::new(10);
    let out = TelemetryFrame { session_state: 0, ..base(0, 0.0) };
    let evs = engine.process_frame(&out);
    assert!(!evs.iter().any(|e| matches!(e, RaceEvent::DriverEnteredCar { .. })));
    let inside = TelemetryFrame { session_state: 1, ..base(0, 1.0) };
    let evs = engine.process_frame(&inside);
    assert!(evs.iter().any(|e| matches!(e, RaceEvent::DriverEnteredCar { .. })));
    let evs = engine.process_frame(&out);
    assert!(evs.iter().any(|e| matches!(e, RaceEvent::DriverExitedCar { .. })));
}

#[test]
fn finished_lap_is_reported_with_its_time_and_the_best() {
    let mut engine = NarrativeEngine::new(10);
    engine.process_frame(&base(1, 0.0));
    engine.process_frame(&base(1, 50.0));
    let evs = engine.process_frame(&base(2, 90.0));
    match &evs[0] {
        RaceEvent::LapCompleted { lap, lap_time_s, best_lap_time_s, position, pit_frames, .. } => {
            assert_eq!(*lap, 1);
            assert_eq!(*lap_time_s, Some(s(90.0)));
            assert_eq!(*best_lap_time_s, Some(s(90.0)));
            assert_eq!(*position, 5);
            assert_eq!(*pit_frames, 0);
        }
        _ => panic!("expected LapCompleted"),
    }
    let evs = engine.process_frame(&base(3, 190.0));
    match &evs[0] {
        RaceEvent::LapCompleted { lap, lap_time_s, best_lap_time_s, .. } => {
            assert_eq!(*lap, 2);
            assert_eq!(*lap_time_s, Some(s(100.0)));
            assert_eq!(*best_lap_time_s, Some(s(90.0)));
        }
        _ => panic!("expected LapCompleted"),
    }
}

fn placed(lap: u8, t: f64, position: u8, others: Vec<u8>) -> TelemetryFrame {
    let mut positions = vec![position];
    positions.extend(others.iter());
    let n = positions.len();
    TelemetryFrame {
        player_car_position: position,
        car_idx_lap_dist_pct: vec![s(0.5); n],
        car_idx_position: positions,
        car_idx_on_pit_road: vec![false; n],
        ..base(lap, t)
    }
}

#[test]
fn won_positions_are_an_overtake_of_the_car_that_now_follows() {
    let mut engine = NarrativeEngine::new(10);
    engine.process_frame(&placed(1, 0.0, 5, vec![4, 3]));
    engine.process_frame(&placed(2, 90.0, 5, vec![4, 3]));
    engine.process_frame(&placed(2, 100.0, 3, vec![5, 4]));
    let evs = engine.process_frame(&placed(3, 180.0, 3, vec![5, 4]));
    assert!(evs.iter().any(|e| matches!(
        e,
        RaceEvent::Overtake {
            lap: 2,
            car_idx: 0,
            overtaken_car_idx: Some(2),
            position_from: 5,
            position_to: 3,
            positions_gained: 2,
            ..
        }
    )));
}

#[test]
fn winning_the_first_position_is_an_overtake_for_the_lead() {
    let mut engine = NarrativeEngine::new(10);
    engine.process_frame(&placed(1, 0.0, 2, vec![1]));
    engine.process_frame(&placed(2, 90.0, 2, vec![1]));
    engine.process_frame(&placed(2, 100.0, 1, vec![2]));
    let evs = engine.process_frame(&placed(3, 180.0, 1, vec![2]));
    assert!(evs.iter().any(|e| matches!(
        e,
        RaceEvent::OvertakeForLead {
            lap: 2,
            overtaken_car_idx: Some(1),
            position_from: 2,
            positions_gained: 1,
            ..
        }
    )));
}

#[test]
fn positions_won_on_a_pit_lap_are_no_overtake() {
    let mut engine = NarrativeEngine::new(10);
    engine.process_frame(&placed(1, 0.0, 5, vec![4, 3]));
    engine.process_frame(&placed(2, 90.0, 5, vec![4, 3]));
    for i in 0..20u8 {
        let lane = TelemetryFrame {
            on_pit_road: true,
            ..placed(2, 91.0 + i as f64, 3, vec![5, 4])
        };
        engine.process_frame(&lane);
    }
    let evs = engine.process_frame(&placed(3, 180.0, 3, vec![5, 4]));
    assert!(evs.iter().any(|e| matches!(e, RaceEvent::LapCompleted { lap: 2, pit_frames: 20, .. })));
    assert!(!evs.iter().any(|e| matches!(e, RaceEvent::Overtake { .. })));
}

#[test]
fn yellow_and_pit_road_make_a_frame_unfit() {
    assert!(clean_frame(&base(3, 0.0)));
    assert!(!clean_frame(&TelemetryFrame { on_pit_road: true, ..base(3, 0.0) }));
    assert!(!clean_frame(&TelemetryFrame { session_flags: 0x0100, ..base(3, 0.0) }));
    assert!(!clean_frame(&TelemetryFrame { session_flags: 0x4000, ..base(3, 0.0) }));
    // Known yellow zones of the first two laps.
    assert!(!clean_frame(&TelemetryFrame { lap_dist_pct: s(0.63), ..base(1, 0.0) }));
    assert!(!clean_frame(&TelemetryFrame { lap_dist_pct: s(0.62), ..base(2, 0.0) }));
    assert!(clean_frame(&TelemetryFrame { lap_dist_pct: s(0.63), ..base(2, 0.0) }));
}

/// Drives `laps` laps of 100 s with car 1 ahead; its gap in lap `n` is `gap(n)`.
fn drive(engine: &mut NarrativeEngine, laps: u8, gap: fn(u8) -> f64) -> Vec<RaceEvent> {
    let mut all = Vec::new();
    for lap in 1..=laps {
        for k in 0..10u8 {
            let place = k as f64 / 10.0 + 0.05;
            let ahead = place + gap(lap) / 100.0;
            let frame = TelemetryFrame {
                lap_dist_pct: s(place),
                car_idx_lap_dist_pct: vec![s(place), s(ahead)],
                car_idx_position: vec![5, 4],
                car_idx_on_pit_road: vec![false, false],
                ..base(lap, (lap - 1) as f64 * 100.0 + k as f64 * 10.0)
            };
            all.extend(engine.process_frame(&frame));
        }
    }
    all
}

#[test]
fn steady_closing_is_reported_as_a_push_with_its_rate() {
    let mut engine = NarrativeEngine::new(10);
    // Laps 2 and 3 are timed with the 100 s of the lap before; the gap shrinks by
    // half a second a lap.
    let events = drive(&mut engine, 5, |lap| 4.5 - 0.5 * lap as f64);
    let closing: Vec<&RaceEvent> =
        events.iter().filter(|e| matches!(e, RaceEvent::BattleClosing { .. })).collect();
    assert_eq!(closing.len(), 1);
    match closing[0] {
        RaceEvent::BattleClosing {
            lap,
            opponent_car_idx,
            car_race_position,
            closing_rate_sec_per_lap,
            slope_info,
            ..
        } => {
            assert_eq!(*lap, 3);
            assert_eq!(*opponent_car_idx, 1);
            assert_eq!(*car_race_position, 4);
            assert_eq!(*closing_rate_sec_per_lap, s(0.5));
            assert_eq!(slope_info.median_slope, s(-0.5));
            assert_eq!(slope_info.anchors_qualifying, 10);
            assert_eq!(slope_info.anchors_agreeing, 10);
        }
        _ => unreachable!(),
    }
}

#[test]
fn a_constant_gap_is_not_closing() {
    let mut engine = NarrativeEngine::new(10);
    let events = drive(&mut engine, 5, |_| 3.0);
    assert!(!events.iter().any(|e| matches!(e, RaceEvent::BattleClosing { .. })));
}

#[test]
fn restart_forgets_everything_but_the_names() {
    let mut engine = NarrativeEngine::new(10);
    engine.set_roster(SessionRoster::from_cars(vec![CarRef {
        car_idx: 0,
        car_number: "42".to_owned(),
        driver_name: "Pat".to_owned(),
        team_name: None,
        car_class_short_name: None,
        car_class_id: Some(1),
        user_id: None,
        irating: None,
        lic_string: None,
        flair_name: None,
    }]));
    engine.process_frame(&base(1, 0.0));
    assert!(!engine.process_frame(&base(1, 1.0)).iter().any(|e| matches!(e, RaceEvent::RaceGreen { .. })));
    engine.restart();
    assert!(engine.process_frame(&base(1, 2.0)).iter().any(|e| matches!(e, RaceEvent::RaceGreen { .. })));
}

#[test]
fn the_best_time_is_kept_over_slower_laps() {
    let mut engine = NarrativeEngine::new(10);
    let mut told = Vec::new();
    for (lap, t) in [(1, 0.0), (2, 100.0), (3, 190.0), (4, 290.0)] {
        for event in engine.process_frame(&base(lap, t)) {
            if let RaceEvent::LapCompleted { lap, lap_time_s, best_lap_time_s, .. } = event {
                told.push((lap, lap_time_s, best_lap_time_s));
            }
        }
    }
    assert_eq!(
        told,
        vec![
            (1, Some(s(100.0)), Some(s(100.0))),
            (2, Some(s(90.0)), Some(s(90.0))),
            (3, Some(s(100.0)), Some(s(90.0))),
        ]
    );
}

#[test]
fn a_lap_ends_in_the_position_of_the_last_classified_frame() {
    let mut engine = NarrativeEngine::new(10);
    let on_pit = |t: f64, player_car_position: u8| TelemetryFrame {
        on_pit_road: true,
        player_car_position,
        ..base(1, t)
    };
    engine.process_frame(&on_pit(0.0, 7));
    engine.process_frame(&on_pit(1.0, 6));
    // Not classified: neither the position nor the frame on pit road counts.
    engine.process_frame(&on_pit(2.0, 0));
    let events = engine.process_frame(&base(2, 100.0));
    let laps: Vec<&RaceEvent> =
        events.iter().filter(|e| matches!(e, RaceEvent::LapCompleted { .. })).collect();
    assert_eq!(laps.len(), 1);
    assert!(matches!(laps[0], RaceEvent::LapCompleted { lap: 1, position: 6, pit_frames: 2, .. }));
}

#[test]
fn an_incident_is_told_once_while_it_lasts() {
    let mut engine = NarrativeEngine::new(10);
    let mut told = Vec::new();
    for (i, surface) in [3, 1, 2, 2, 1].into_iter().enumerate() {
        let frame = TelemetryFrame {
            session_tick: i as i64,
            car_idx_lap_dist_pct: vec![s(0.5), s(0.6)],
            car_idx_position: vec![5, 4],
            car_idx_on_pit_road: vec![false, false],
            car_idx_track_surface: vec![3, surface],
            ..base(1, i as f64)
        };
        for event in engine.process_frame(&frame) {
            if let RaceEvent::IncidentAlert { car_idx, .. } = event {
                told.push((i, car_idx));
            }
        }
    }
    // The third frame still shows a change; the fourth shows none, so that the fifth
    // begins another incident.
    assert_eq!(told, vec![(1, 1), (4, 1)]);
}

#[test]
fn the_final_gap_is_that_of_the_car_that_was_fought() {
    let mut engine = NarrativeEngine::new(10);
    for i in 0..6u8 {
        engine.process_frame(&frame_with_gap(1, i as f64, 4, 0.501));
    }
    // Car 1 is out of sight; car 2 is the nearest, 2.7 s away.
    let frame = TelemetryFrame {
        car_idx_lap_dist_pct: vec![s(0.500), s(-1.0), s(0.505)],
        car_idx_position: vec![5, 0, 4],
        car_idx_on_pit_road: vec![false, false, false],
        ..base(1, 20.0)
    };
    let events = engine.process_frame(&frame);
    assert!(events.iter().any(|e| matches!(
        e,
        RaceEvent::BattleBroken { opponent_car_idx: 1, final_gap_sec: None, .. }
    )));
}
