use director_narrative_core::lifecycle::LifecyclePublisher;
use director_narrative_core::pipeline::Pipeline;
use director_narrative_core::publisher_log::{
    connected_line, log_event, parse_config_path, rig_id_for,
};
use director_narrative_core::race_event::{LifecycleOrigin, RaceEvent, RaceEventKind};
use director_narrative_core::session_info::{CarRef, SessionRoster};
use director_narrative_core::telemetry_frame::TelemetryFrame;

/// Seconds (or another quantity) in millionths.
fn s(x: f64) -> i64 {
    (x * 1e6).round() as i64
}

fn frame(lap: u8, t: f64, info: u32) -> TelemetryFrame {
    TelemetryFrame {
        lap,
        session_time: s(t),
        lap_dist_pct: s(0.5),
        player_car_idx: 0,
        player_car_position: 5,
        on_pit_road: false,
        session_flags: 0,
        car_idx_lap_dist_pct: vec![s(0.5)],
        car_idx_position: vec![5],
        car_idx_on_pit_road: vec![false],
        car_idx_track_surface: vec![3],
        lap_last_lap_time: 0,
        session_info_update: info,
        session_tick: 60,
        session_state: 4,
        session_num: 2,
        player_incident_count: 0,
        car_idx_lap_completed: vec![1],
        lf_temp_m: 0,
        rf_temp_m: 0,
        lr_temp_m: 0,
        rr_temp_m: 0,
        fuel_level: 0,
        throttle: 0,
        brake: 0,
        speed: 0,
    }
}

const INFO_A: &str = "WeekendInfo: {SubSessionID: 111}\nDriverInfo:\n Drivers:\n - {CarIdx: 0, UserName: Pat, CarNumber: \"42\"}\n";
const INFO_B: &str = "WeekendInfo: {SubSessionID: 222}\nDriverInfo:\n Drivers:\n - {CarIdx: 0, UserName: Kim, CarNumber: \"7\"}\n";

fn kinds(events: &[RaceEvent]) -> Vec<RaceEventKind> {
    events.iter().map(|e| e.kind()).collect()
}

#[test]
fn nothing_is_published_before_the_sub_session_is_known() {
    let mut p = Pipeline::new("0.1.0", 0, 0);
    assert!(p.needs_session_info(&frame(1, 0.0, 1)));
    assert!(p.on_frame(&frame(1, 0.0, 1), None, 1_000).is_empty());
    assert!(p.on_frame(&frame(1, 0.1, 1), Some("WeekendInfo: {}"), 1_016).is_empty());
    assert_eq!(p.sub_session_id(), 0);
    assert_eq!(p.race_session_id(), "0");
    assert_eq!(p.enqueued_total(), 0);
    let events = p.on_frame(&frame(1, 0.2, 1), Some(INFO_A), 1_033);
    assert_eq!(
        kinds(&events),
        vec![RaceEventKind::IracingConnected, RaceEventKind::PublisherHello]
    );
    assert_eq!(p.race_session_id(), "111");
    assert_eq!(p.enqueued_total(), 2);
    assert!(!p.needs_session_info(&frame(1, 0.3, 1)));
    assert!(p.needs_session_info(&frame(1, 0.3, 2)));
    assert_eq!(p.roster().unwrap().lookup(0).unwrap().driver_name, "Pat");
    // Said once.
    assert!(p.on_frame(&frame(1, 0.3, 1), None, 1_050).is_empty());
}

#[test]
fn heartbeats_come_at_their_interval_and_count_what_was_sent() {
    let mut p = Pipeline::new("0.1.0", 1_000, 0);
    let first = p.on_frame(&frame(1, 0.0, 1), Some(INFO_A), 5_000);
    let sent = first.len() as u64;
    assert!(p.on_frame(&frame(1, 0.5, 1), None, 5_500).is_empty());
    let events = p.on_frame(&frame(1, 1.0, 1), None, 6_000);
    assert_eq!(events.len(), 1);
    match &events[0] {
        RaceEvent::PublisherHeartbeat { events_enqueued_total, version, .. } => {
            assert_eq!(*events_enqueued_total, sent);
            assert_eq!(version, "0.1.0");
        }
        _ => panic!("expected a heartbeat"),
    }
    assert_eq!(p.enqueued_total(), sent + 1);
}

#[test]
fn a_new_sub_session_resets() {
    let mut p = Pipeline::new("0.1.0", 0, 0);
    p.on_frame(&frame(1, 100.0, 1), Some(INFO_A), 0);
    let events = p.on_frame(&frame(0, 3.0, 2), Some(INFO_B), 16);
    assert!(matches!(
        events[0],
        RaceEvent::PublisherGoodbye {
            lap: 0,
            session_time: 3_000_000,
            reason: "session_transition",
            previous_sub_session_id: Some(111),
        }
    ));
    match &events[1] {
        RaceEvent::SessionReset {
            previous_sub_session_id,
            sub_session_id,
            previous_session_num,
            session_num,
            previous_session_time,
            reason,
            ..
        } => {
            assert_eq!(*previous_sub_session_id, Some(111));
            assert_eq!(*sub_session_id, 222);
            assert_eq!(*previous_session_num, Some(2));
            assert_eq!(*session_num, 2);
            assert_eq!(*previous_session_time, None);
            assert_eq!(*reason, "sub_session_changed");
        }
        _ => panic!("expected SessionReset"),
    }
    // The engine starts anew: the running race is a synthetic green again.
    assert!(events.iter().any(|e| matches!(
        e,
        RaceEvent::RaceGreen { synthetic: true, origin: LifecycleOrigin::ConnectSnapshot, .. }
    )));
    assert_eq!(p.roster().unwrap().lookup(0).unwrap().driver_name, "Kim");
}

#[test]
fn a_session_clock_that_restarts_resets() {
    let mut p = Pipeline::new("0.1.0", 0, 0);
    p.on_frame(&frame(1, 1983.23, 1), Some(INFO_A), 0);
    // Five seconds are not enough.
    assert!(p.on_frame(&frame(1, 1978.23, 1), None, 16).is_empty());
    let events = p.on_frame(&frame(0, 1.05, 1), None, 32);
    match &events[0] {
        RaceEvent::SessionReset { sub_session_id, previous_session_time, reason, .. } => {
            assert_eq!(*sub_session_id, 111);
            assert_eq!(*previous_session_time, Some(s(1978.23)));
            assert_eq!(*reason, "session_clock_restarted");
        }
        _ => panic!("expected SessionReset"),
    }
    assert!(!events.iter().any(|e| matches!(e, RaceEvent::PublisherGoodbye { .. })));
    // Another session has another clock.
    let other = TelemetryFrame { session_num: 3, ..frame(0, 0.0, 1) };
    p.on_frame(&frame(0, 500.0, 1), None, 48);
    assert!(!p.on_frame(&other, None, 64).iter().any(|e| matches!(e, RaceEvent::SessionReset { .. })));
}

#[test]
fn disconnection_and_shutdown_are_told_with_the_last_frame() {
    let mut p = Pipeline::new("0.1.0", 0, 0);
    assert!(p.on_disconnect().is_none());
    assert!(p.on_shutdown().is_none());
    p.on_frame(&frame(4, 250.0, 1), Some(INFO_A), 0);
    assert!(matches!(
        p.on_disconnect(),
        Some(RaceEvent::IracingDisconnected { lap: 4, session_time: 250_000_000 })
    ));
    let gone = vec![RaceEvent::IracingDisconnected { lap: 4, session_time: 250_000_000 }];
    assert_eq!(p.envelopes(&gone, &frame(4, 250.0, 1), "r")[0].publisher_car.car_number, "42");
    p.on_reconnect();
    assert!(p.roster().is_none());
    assert!(p.needs_session_info(&frame(4, 251.0, 1)));
    let events = p.on_frame(&frame(4, 251.0, 1), Some(INFO_A), 16);
    assert_eq!(events[0].kind(), RaceEventKind::IracingConnected);
    assert!(!events.iter().any(|e| matches!(e, RaceEvent::PublisherHello { .. })));
    assert!(matches!(
        p.on_shutdown(),
        Some(RaceEvent::PublisherGoodbye {
            lap: 4,
            session_time: 251_000_000,
            reason: "shutdown",
            previous_sub_session_id: None,
        })
    ));
    assert_eq!(p.last_frame().unwrap().session_num, 2);
}

#[test]
fn every_event_gets_its_own_envelope() {
    let mut p = Pipeline::new("0.1.0", 0, 0);
    let f = frame(1, 0.0, 1);
    let events = p.on_frame(&f, Some(INFO_A), 0);
    let envelopes = p.envelopes(&events, &f, "rig-x");
    assert_eq!(envelopes.len(), events.len());
    for (event, envelope) in events.iter().zip(envelopes.iter()) {
        assert_eq!(envelope.event_type, event.kind().event_type());
        assert_eq!(envelope.race_session_id, "111");
        assert_eq!(envelope.rig_id, "rig-x");
        assert_eq!(envelope.car.car_number, "42");
        assert_eq!(envelope.context.unwrap().sub_session_id, Some(111));
    }
}

#[test]
fn sequence_numbers_rise_over_all_batches_of_a_run() {
    let mut p = Pipeline::new("0.1.0", 0, 0);
    let f = frame(1, 0.0, 1);
    let events = p.on_frame(&f, Some(INFO_A), 0);
    assert!(events.len() > 1);
    let first = p.envelopes(&events, &f, "rig-x");
    p.on_frame(&f, None, 1);
    let second = p.envelopes(&events, &f, "rig-x");
    let run = first[0].publisher_run_id.clone();
    assert_eq!(run.len(), 36);
    for (i, envelope) in first.iter().chain(second.iter()).enumerate() {
        assert_eq!(envelope.sequence, i as u64 + 1);
        assert_eq!(envelope.publisher_run_id, run);
        assert_eq!(
            envelope.event_key,
            format!("v2-111-{}-{}-{}", f.session_tick, envelope.event_type, i + 1)
        );
    }
    assert_ne!(Pipeline::new("0.1.0", 0, 0).envelopes(&events, &f, "r")[0].publisher_run_id, run);
}

fn roster() -> SessionRoster {
    SessionRoster::from_cars(vec![CarRef {
        car_idx: 0,
        car_number: "42".to_owned(),
        driver_name: "Pat".to_owned(),
        team_name: None,
        car_class_short_name: None,
        car_class_id: None,
        user_id: None,
        irating: None,
        lic_string: None,
        flair_name: None,
    }])
}

#[test]
fn console_lines_of_notable_events() {
    let roster = roster();
    let f = frame(2, 0.0, 1);
    let engaged = RaceEvent::BattleEngaged {
        lap: 2,
        session_time: 0,
        player_car_idx: 0,
        opponent_car_idx: 9,
        gap_s: s(0.54),
        car_race_position: 4,
        prior_skirmishes: 0,
        prior_attack_time_s: 0,
        engagement_started_at_session_time_s: 0,
    };
    assert_eq!(
        log_event(&engaged, Some(&roster), &f),
        Some("[publisher] BATTLE_ENGAGED — #42 vs #9, gap 0.5s".to_owned())
    );
    let overtake = RaceEvent::Overtake {
        lap: 2,
        session_time: 0,
        car_idx: 0,
        overtaken_car_idx: None,
        position_from: 4,
        position_to: 3,
        positions_gained: 1,
    };
    assert_eq!(log_event(&overtake, None, &f), Some("[publisher] OVERTAKE — #0 P3".to_owned()));
    let full = RaceEvent::FlagYellowFullCourse { lap: 2, session_time: 0 };
    assert_eq!(log_event(&full, None, &f), Some("[publisher] FLAG_YELLOW_FULL_COURSE".to_owned()));
    let quiet = LifecyclePublisher::new("0.1.0").on_deactivate(2, 0);
    assert_eq!(log_event(&quiet, None, &f), None);
    assert_eq!(connected_line(Some(&roster), 0), "[publisher] connected — car=#42 Pat");
    assert_eq!(connected_line(Some(&roster), 3), "[publisher] connected — carIdx=3");
}

#[test]
fn rigs_are_named_after_their_computer() {
    assert_eq!(rig_id_for(Some("RIG-One")), "rig-rig-one");
    assert_eq!(rig_id_for(Some("ÄÖ")), "rig-äö");
    assert_eq!(rig_id_for(None), "rig-unknown");
}

fn args(list: &[&str]) -> Vec<String> {
    list.iter().map(|a| a.to_string()).collect()
}

#[test]
fn the_config_path_stands_behind_its_flag() {
    assert_eq!(parse_config_path(&args(&["publisher"])), None);
    assert_eq!(parse_config_path(&args(&["publisher", "--config"])), None);
    assert_eq!(
        parse_config_path(&args(&["publisher", "--x", "--config", "a.toml", "--config", "b"])),
        Some("a.toml".to_owned())
    );
}

#[test]
fn hello_and_the_checkered_flag_come_once_in_a_long_run() {
    let mut p = Pipeline::new("0.1.0", 0, 0);
    let mut all = Vec::new();
    for i in 0..50u8 {
        let info = if i == 3 { Some(INFO_A) } else { None };
        let state = if i < 20 { 4 } else { 5 };
        let f = TelemetryFrame { session_state: state, ..frame(1, i as f64, 1) };
        all.extend(p.on_frame(&f, info, 16 * i as u64));
    }
    let hellos = all.iter().filter(|e| matches!(e, RaceEvent::PublisherHello { .. })).count();
    let ends = all.iter().filter(|e| matches!(e, RaceEvent::RaceCheckered { .. })).count();
    assert_eq!(hellos, 1);
    assert_eq!(ends, 1);
}

#[test]
fn a_clock_that_runs_back_has_the_session_read_again() {
    let mut p = Pipeline::new("0.1.0", 0, 0);
    p.on_frame(&frame(1, 100.0, 1), Some(INFO_A), 0);
    assert!(!p.needs_session_info(&frame(1, 101.0, 1)));
    assert!(p.needs_session_info(&frame(1, 99.0, 1)));
    assert!(p.needs_session_info(&frame(1, 101.0, 2)));
}

fn reports(events: &[RaceEvent]) -> usize {
    events.iter().filter(|e| matches!(e, RaceEvent::DriverMaterial { .. })).count()
}

#[test]
fn a_quiet_stint_is_reported_on_its_cadence() {
    let mut p = Pipeline::new("0.1.0", 0, 25_000);
    let rivals = |t: f64, ahead: f64| TelemetryFrame {
        car_idx_lap_dist_pct: vec![s(0.5), s(0.5 + ahead / 540.0)],
        car_idx_position: vec![5, 4],
        car_idx_on_pit_road: vec![false, false],
        car_idx_lap_completed: vec![11, 11],
        car_idx_track_surface: vec![3, 3],
        speed: s(61.5),
        fuel_level: s(42.25),
        ..frame(12, t, 1)
    };
    assert_eq!(reports(&p.on_frame(&rivals(0.0, 4.0), Some(INFO_A), 1_000)), 0);
    assert_eq!(reports(&p.on_frame(&rivals(24.0, 4.0), None, 25_999)), 0);
    let first = p.on_frame(&rivals(25.0, 4.0), None, 26_000);
    assert_eq!(reports(&first), 1);
    assert_eq!(reports(&p.on_frame(&rivals(26.0, 3.9), None, 27_000)), 0);
    let second = p.on_frame(&rivals(51.0, 3.0), None, 52_500);
    match second.iter().find(|e| matches!(e, RaceEvent::DriverMaterial { .. })) {
        Some(RaceEvent::DriverMaterial {
            position,
            laps_completed,
            car_ahead_idx,
            gap_ahead_trend,
            gap_behind_trend,
            gap_behind_s,
            delta_to_best_s,
            effort,
            speed_mps,
            fuel_level_l,
            interval_s,
            ..
        }) => {
            assert_eq!((*position, *laps_completed), (5, 11));
            assert_eq!(*car_ahead_idx, Some(1));
            assert_eq!((*gap_ahead_trend, *gap_behind_trend), ("CLOSING", "UNKNOWN"));
            assert_eq!((*gap_behind_s, *delta_to_best_s), (None, None));
            assert_eq!(*effort, "PUSHING");
            assert_eq!((*speed_mps, *fuel_level_l), (s(61.5), s(42.25)));
            assert_eq!(*interval_s, s(26.5));
        }
        _ => panic!("expected a report"),
    }
    // On pit road nothing is reported, and the trend is forgotten.
    let stop = TelemetryFrame { on_pit_road: true, ..rivals(77.0, 3.0) };
    assert_eq!(reports(&p.on_frame(&stop, None, 80_000)), 0);
    let out = p.on_frame(&rivals(78.0, 2.0), None, 80_016);
    assert!(out.iter().any(|e| matches!(
        e,
        RaceEvent::DriverMaterial { gap_ahead_trend: "UNKNOWN", effort: "HOLDING", .. }
    )));
    // Nor out of the world.
    let away = TelemetryFrame { car_idx_track_surface: vec![-1, 3], ..rivals(120.0, 2.0) };
    assert_eq!(reports(&p.on_frame(&away, None, 120_000)), 0);
    // An interval of zero makes no reports.
    let mut silent = Pipeline::new("0.1.0", 0, 0);
    silent.on_frame(&rivals(0.0, 4.0), Some(INFO_A), 0);
    assert_eq!(reports(&silent.on_frame(&rivals(100.0, 4.0), None, 100_000)), 0);
}

#[test]
fn reports_wait_for_the_drivers_name_and_restart_with_the_session() {
    let mut p = Pipeline::new("0.1.0", 0, 25_000);
    let nameless = "WeekendInfo:\n SubSessionID: 111\nDriverInfo:\n Drivers: []\n";
    p.on_frame(&frame(1, 0.0, 1), Some(nameless), 0);
    assert_eq!(reports(&p.on_frame(&frame(1, 30.0, 1), None, 30_000)), 0);
    assert_eq!(reports(&p.on_frame(&frame(1, 31.0, 2), Some(INFO_A), 31_000)), 1);
    assert_eq!(reports(&p.on_frame(&frame(1, 60.0, 3), Some(INFO_B), 60_000)), 0);
    assert_eq!(reports(&p.on_frame(&frame(1, 84.0, 3), None, 84_999)), 0);
    assert_eq!(reports(&p.on_frame(&frame(1, 85.0, 3), None, 85_000)), 1);
}
