use director_narrative_core::battle_state::SlopeInfo;
use director_narrative_core::json::Json;
use director_narrative_core::identity::{cast, driver_id};
use director_narrative_core::lifecycle::LifecyclePublisher;
use director_narrative_core::utc::utc_from_ms;
use director_narrative_core::publisher_event::{
    build_event, envelop, epoch_ms, leader_follower_indices, percentage_text, primary_car_idx, resolve_car,
    PublisherRun, Stamp,
};
use director_narrative_core::race_event::{
    EventScope, FlagScope, LifecycleOrigin, RaceEvent, RaceEventKind,
};
use director_narrative_core::session_info::{CarRef, SessionRoster};
use director_narrative_core::telemetry_frame::TelemetryFrame;
use serde_json::Value;

/// Seconds (or another quantity) in millionths.
fn s(x: f64) -> i64 {
    (x * 1e6).round() as i64
}

fn value(json: &Json) -> Value {
    match json {
        Json::Null => Value::Null,
        Json::Bool(b) => Value::Bool(*b),
        Json::Int(n) => Value::from(*n as i64),
        Json::Decimal(m) => Value::from(*m as f64 / 1e6),
        Json::Text(t) => Value::String(t.clone()),
        Json::List(items) => Value::Array(items.iter().map(value).collect()),
        Json::Object(fields) => {
            let mut map = serde_json::Map::new();
            for field in fields {
                assert!(map.insert(field.key.clone(), value(&field.value)).is_none());
            }
            Value::Object(map)
        }
    }
}

fn minimal_frame() -> TelemetryFrame {
    TelemetryFrame {
        lap: 4,
        session_time: s(1234.5),
        lap_dist_pct: s(0.5),
        player_car_idx: 0,
        player_car_position: 5,
        on_pit_road: false,
        session_flags: 0,
        car_idx_lap_dist_pct: vec![s(0.5), s(0.51)],
        car_idx_position: vec![5, 4],
        car_idx_on_pit_road: vec![false, false],
        car_idx_track_surface: vec![0, 0],
        lap_last_lap_time: s(540.0),
        session_info_update: 1,
        session_tick: 9876,
        session_state: 4,
        session_num: 0,
        player_incident_count: 0,
        car_idx_lap_completed: vec![3, 3],
        lf_temp_m: 0,
        rf_temp_m: 0,
        lr_temp_m: 0,
        rr_temp_m: 0,
        fuel_level: 0,
        throttle: 0,
        brake: 0,
        speed: 0,
    }
}

fn green() -> RaceEvent {
    RaceEvent::RaceGreen {
        lap: 1,
        session_time: s(0.0),
        synthetic: false,
        origin: LifecycleOrigin::SessionStateTransition,
    }
}

#[test]
fn battle_closing_json_shape() {
    let event = RaceEvent::BattleClosing {
        lap: 4,
        session_time: s(1234.5),
        player_car_idx: 0,
        opponent_car_idx: 1,
        car_race_position: 3,
        closing_rate_sec_per_lap: s(0.43),
        slope_info: SlopeInfo {
            median_slope: s(-0.43),
            anchors_qualifying: 5,
            anchors_agreeing: 4,
            hotspot_lap_dist_pct: s(0.62),
        },
        prior_skirmishes: 0,
        prior_attack_time_s: s(0.0),
    };

    let env = build_event(&event, &minimal_frame(), None, "session-abc", "rig-001", 1, &mut PublisherRun::new());
    let json: Value = value(&env.to_json());

    // Envelope-level fields
    assert!(json["id"].as_str().map(|s| s.len() == 36).unwrap_or(false),
        "id should be a UUID string");
    assert_eq!(json["type"], "BATTLE_CLOSING");
    assert_eq!(json["raceSessionId"], "session-abc");
    assert_eq!(json["rigId"], "rig-001");
    assert_eq!(json["sessionTime"], 1234.5_f64);
    assert_eq!(json["sessionTick"], 9876_i64);

    // Car fallback (no roster)
    assert_eq!(json["car"]["carIdx"], 1);  // opponent car_idx, not player

    // Payload contains event-specific fields (field names are snake_case)
    let rate = json["payload"]["closing_rate_sec_per_lap"].as_f64().unwrap_or(0.0);
    assert!((rate - 0.43).abs() < 1e-4, "expected ~0.43, got {rate}");
    assert_eq!(json["payload"]["opponent_car_idx"], 1);
    assert_eq!(json["payload"]["player_car_idx"], 0);
    assert_eq!(json["payload"]["lap"], 4);
    assert!(json["payload"].get("event_type").is_none(),
        "event_type should be hoisted out of payload");

    // Context block
    assert_eq!(json["context"]["leaderLap"], 3);
    assert_eq!(json["context"]["sessionState"], 4);
    assert_eq!(json["context"]["sessionFlags"], 0);
}

#[test]
fn uuid_is_unique_across_calls() {
    let event = green();
    let frame = minimal_frame();
    let e1 = build_event(&event, &frame, None, "s", "r", 1, &mut PublisherRun::new());
    let e2 = build_event(&event, &frame, None, "s", "r", 1, &mut PublisherRun::new());
    assert_ne!(e1.id, e2.id);
}

#[test]
fn session_events_use_player_car_idx() {
    let event = green();
    let frame = minimal_frame(); // player_car_idx = 0
    let env = build_event(&event, &frame, None, "s", "r", 1, &mut PublisherRun::new());
    assert_eq!(env.car.car_idx, 0);
}

#[test]
fn battle_payload_includes_leader_and_follower_car_numbers() {
    let event = RaceEvent::BattleEngaged {
        lap: 2,
        session_time: s(12.0),
        player_car_idx: 0,
        opponent_car_idx: 1,
        gap_s: s(0.4),
        car_race_position: 4,
        prior_skirmishes: 0,
        prior_attack_time_s: s(0.0),
        engagement_started_at_session_time_s: s(12.0),
    };

    let env = build_event(&event, &minimal_frame(), None, "s", "r", 1, &mut PublisherRun::new());
    let json: Value = value(&env.to_json());
    assert_eq!(json["payload"]["leaderCarNumber"], "1");
    assert_eq!(json["payload"]["followerCarNumber"], "0");
}

#[test]
fn lap_completed_payload_includes_camel_case_aliases() {
    let event = RaceEvent::LapCompleted {
        lap: 2,
        session_time: s(99.0),
        player_car_idx: 0,
        lap_time_s: Some(s(88.2)),
        best_lap_time_s: Some(s(87.9)),
        position: 5,
        pit_frames: 0,
    };

    let env = build_event(&event, &minimal_frame(), None, "s", "r", 1, &mut PublisherRun::new());
    let json: Value = value(&env.to_json());
    let lap_time = json["payload"]["lapTime"].as_f64().unwrap_or_default();
    let best_lap = json["payload"]["bestLapTime"].as_f64().unwrap_or_default();
    let lap_time_snake = json["payload"]["lap_time_s"].as_f64().unwrap_or_default();
    let best_lap_snake = json["payload"]["best_lap_time_s"].as_f64().unwrap_or_default();
    assert!((lap_time - 88.2).abs() < 1e-3);
    assert!((best_lap - 87.9).abs() < 1e-3);
    assert!((lap_time_snake - 88.2).abs() < 1e-3);
    assert!((best_lap_snake - 87.9).abs() < 1e-3);
}

#[test]
fn ids_have_the_form_of_a_version_4_uuid() {
    let id = build_event(&green(), &minimal_frame(), None, "s", "r", 1, &mut PublisherRun::new()).id;
    let chars: Vec<char> = id.chars().collect();
    assert_eq!(chars.len(), 36);
    for (i, c) in chars.iter().enumerate() {
        match i {
            8 | 13 | 18 | 23 => assert_eq!(*c, '-'),
            14 => assert_eq!(*c, '4'),
            19 => assert!("89ab".contains(*c)),
            _ => assert!(matches!(*c, '0'..='9' | 'a'..='f')),
        }
    }
}

#[test]
fn timestamps_are_milliseconds_of_this_century() {
    let t = build_event(&green(), &minimal_frame(), None, "s", "r", 1, &mut PublisherRun::new()).timestamp;
    assert!(t > 1_600_000_000_000);
    assert!(t < 10_000_000_000_000);
}

fn stamp() -> Stamp {
    Stamp {
        sub_session_id: 31_337,
        run_id: "some-run".to_owned(),
        sequence: 12,
        id: "some-id".to_owned(),
        timestamp: 77,
    }
}

#[test]
fn envelope_under_a_given_id_and_time() {
    let env = envelop(&green(), &minimal_frame(), None, "s", "r", stamp());
    assert_eq!(env.id, "some-id");
    assert_eq!(env.timestamp, 77);
    assert_eq!(env.event_type, "RACE_GREEN");
    assert_eq!(env.session_tick, 9876);
    let json = value(&env.to_json());
    assert_eq!(json["payload"]["origin"], "SESSION_STATE_TRANSITION");
    assert_eq!(json["payload"]["synthetic"], false);
    assert_eq!(json["payload"]["sessionTime"], 0.0);
    assert_eq!(json["car"]["teamName"], Value::Null);
}

fn roster() -> SessionRoster {
    SessionRoster::from_cars(vec![CarRef {
        car_idx: 1,
        car_number: "007".to_owned(),
        driver_name: "James".to_owned(),
        team_name: Some("Six".to_owned()),
        car_class_short_name: None,
        car_class_id: Some(4011),
        user_id: Some(7),
        irating: None,
        lic_string: None,
        flair_name: None,
    }])
}

#[test]
fn cars_are_resolved_from_the_roster_or_stubbed() {
    let roster = roster();
    let known = resolve_car(1, Some(&roster));
    assert_eq!(known.car_number, "007");
    assert_eq!(known.team_name, Some("Six".to_owned()));
    let stub = resolve_car(200, Some(&roster));
    assert_eq!(stub.car_number, "200");
    assert_eq!(stub.driver_name, "");
    assert_eq!(stub.user_id, None);
}

#[test]
fn only_battles_are_about_the_opponent() {
    let closing = RaceEvent::BattleBroken {
        lap: 1,
        session_time: 0,
        player_car_idx: 3,
        opponent_car_idx: 9,
        final_gap_sec: None,
        car_race_position: 1,
        engagement_started_at_session_time_s: 0,
    };
    assert_eq!(primary_car_idx(&closing, 3), 9);
    assert_eq!(primary_car_idx(&green(), 3), 3);
}

#[test]
fn the_better_position_leads_and_the_player_in_doubt() {
    let frame = minimal_frame();
    assert_eq!(leader_follower_indices(&frame, 0, 1), (1, 0));
    assert_eq!(leader_follower_indices(&frame, 1, 0), (1, 0));
    assert_eq!(leader_follower_indices(&frame, 0, 9), (0, 9));
}

#[test]
fn places_are_told_with_one_decimal() {
    assert_eq!(percentage_text(s(0.425)), "42.5%");
    assert_eq!(percentage_text(0), "0.0%");
    assert_eq!(percentage_text(s(1.0)), "100.0%");
    assert_eq!(percentage_text(s(0.12345)), "12.3%");
    assert_eq!(percentage_text(s(0.1236)), "12.4%");
    assert_eq!(percentage_text(s(-0.2)), "0.0%");
}

#[test]
fn incident_alerts_carry_the_documented_names() {
    let event = RaceEvent::IncidentAlert {
        lap: 1,
        session_time: s(1.0),
        car_idx: 1,
        driver_incident_count: None,
        previous_track_surface: 3,
        current_track_surface: 1,
        previous_speed_mps: s(72.0),
        current_speed_mps: s(52.0),
        speed_drop_mps: s(20.0),
        severity: s(0.5),
        severity_normalized: s(0.5),
        incident_count_delta: None,
        reason: "surface_drop",
    };
    let json = value(&build_event(&event, &minimal_frame(), None, "s", "r", 1, &mut PublisherRun::new()).to_json());
    assert_eq!(json["payload"]["trackSurface"], 1);
    assert_eq!(json["payload"]["currentTrackSurface"], 1);
    assert_eq!(json["payload"]["severityScore"], 0.5);
    assert_eq!(json["payload"]["severityNormalized"], 0.5);
    assert_eq!(json["payload"]["reason"], "surface_drop");
}

#[test]
fn every_snake_case_key_has_a_camel_case_twin() {
    let event = RaceEvent::FlagYellowLocal {
        lap: 3,
        session_time: s(180.0),
        trigger_car_idx: Some(1),
        lap_dist_pct: Some(s(0.425)),
        sector: None,
        scope: FlagScope::SelfCaused,
        linked_incident_id: Some(8),
    };
    let roster = roster();
    let json = value(&build_event(&event, &minimal_frame(), Some(&roster), "s", "r", 1, &mut PublisherRun::new()).to_json());
    assert_eq!(json["payload"]["linkedIncidentId"], 8);
    assert_eq!(json["payload"]["lapDistPct"], 0.425);
    assert_eq!(json["payload"]["flagScope"], "SelfCaused");
    assert_eq!(json["payload"]["triggerCar"]["carNumber"], "007");
}

#[test]
fn wire_names_and_scopes_of_all_events() {
    let all = RaceEventKind::all();
    assert_eq!(all.len(), 38);
    for (i, a) in all.iter().enumerate() {
        for b in &all[i + 1..] {
            assert_ne!(a.event_type(), b.event_type());
        }
    }
    assert_eq!(RaceEventKind::OvertakeForLead.event_type(), "OVERTAKE_FOR_LEAD");
    assert_eq!(RaceEventKind::SessionReset.scope(), EventScope::SessionScoped);
    assert_eq!(RaceEventKind::PublisherHello.scope(), EventScope::RigScoped);
    assert_eq!(RaceEventKind::Overtake.scope(), EventScope::CarScoped);
    assert_eq!(green().event_scope(), EventScope::SessionScoped);
    assert_eq!(green().kind(), RaceEventKind::RaceGreen);
}

#[test]
fn readings_of_the_clock_count_from_the_epoch() {
    let epoch = std::time::SystemTime::UNIX_EPOCH;
    assert_eq!(epoch_ms(&epoch), 0);
    assert_eq!(epoch_ms(&(epoch + std::time::Duration::from_micros(1_234_999))), 1_234);
    assert_eq!(epoch_ms(&(epoch - std::time::Duration::from_secs(5))), 0);
}

fn sent(event: &RaceEvent) -> Value {
    let roster = roster();
    value(&envelop(event, &minimal_frame(), Some(&roster), "31337", "rig-001", stamp()).to_json())
}

#[test]
fn every_envelope_says_where_it_belongs() {
    let json = sent(&green());
    assert_eq!(json["contractVersion"], 2);
    assert_eq!(json["eventKey"], "v2-31337-9876-RACE_GREEN-12");
    assert_eq!(json["sequence"], 12);
    assert_eq!(json["publisherRunId"], "some-run");
    assert_eq!(json["emittedAt"], "1970-01-01T00:00:00.077Z");
    assert_eq!(json["timestamp"], 77);
    assert_eq!(json["scope"], "SESSION_SCOPED");
    assert_eq!(json["context"]["subSessionId"], 31_337);
}

#[test]
fn every_envelope_names_its_publisher_twice() {
    let json = sent(&green());
    for publisher in [&json["publisher"], &json["payload"]["publisher"]] {
        assert_eq!(publisher["rigId"], "rig-001");
        assert_eq!(publisher["rigLabel"], "rig-001");
        assert_eq!(publisher["carIdx"], 0);
        assert_eq!(publisher["carNumber"], "0");
        assert_eq!(publisher["driverId"], Value::Null);
        assert_eq!(publisher["driverName"], "");
    }
    let payload = &json["payload"];
    assert_eq!(payload["rigId"], "rig-001");
    assert_eq!(payload["rigLabel"], "rig-001");
    assert_eq!(payload["publisherCarIdx"], 0);
    assert_eq!(payload["publisherCarNumber"], "0");
    assert_eq!(payload["publisherDriverId"], Value::Null);
    assert_eq!(payload["publisherDriverName"], "");
}

#[test]
fn a_session_wide_event_has_no_subject() {
    let json = sent(&green());
    assert!(json.get("subject").is_none());
    let payload = &json["payload"];
    assert!(payload.get("subject").is_none());
    assert_eq!(payload["subjectRole"], "SESSION");
    assert_eq!(payload["subjectCarIdx"], Value::Null);
    assert!(payload.as_object().unwrap().contains_key("subjectCarIdx"));
    assert!(payload.get("attackerCarIdx").is_none());
}

#[test]
fn in_a_battle_the_car_behind_is_the_attacker() {
    // Car 1 leads car 0.
    let json = sent(&RaceEvent::BattleEngaged {
        lap: 2,
        session_time: s(12.0),
        player_car_idx: 0,
        opponent_car_idx: 1,
        gap_s: s(0.4),
        car_race_position: 4,
        prior_skirmishes: 0,
        prior_attack_time_s: s(0.0),
        engagement_started_at_session_time_s: s(12.0),
    });
    assert_eq!(json["scope"], "CAR_SCOPED");
    assert_eq!(json["subject"]["role"], "ATTACKER");
    assert_eq!(json["subject"]["carIdx"], 0);
    assert_eq!(json["subject"]["car"]["carIdx"], 0);
    let payload = &json["payload"];
    assert_eq!(payload["subject"]["role"], "ATTACKER");
    assert_eq!(payload["subjectRole"], "ATTACKER");
    assert_eq!(payload["subjectCarIdx"], 0);
    assert_eq!(payload["attackerCarIdx"], 0);
    assert_eq!(payload["attackerCarNumber"], "0");
    assert_eq!(payload["defenderCarIdx"], 1);
    assert_eq!(payload["defenderCarNumber"], "007");
    assert_eq!(payload["defenderDriverId"], "user:7");
    assert_eq!(payload["defenderCar"]["driverName"], "James");
    assert_eq!(payload["gap_s"], 0.4);
    assert_eq!(payload["gapS"], 0.4);
}

#[test]
fn each_family_has_its_role() {
    let frame = minimal_frame();
    let role = |event: RaceEvent| {
        let c = cast(&event, &frame);
        (c.role.name(), c.subject, c.attacker, c.defender)
    };
    let (lap, session_time) = (1, 0);
    assert_eq!(
        role(RaceEvent::VulnerabilityResolved { lap, session_time, defender_idx: 4, attacker_idx: 5 }),
        ("DEFENDER", Some(4), Some(5), Some(4))
    );
    assert_eq!(
        role(RaceEvent::HorizonClosingResolved {
            lap,
            session_time,
            attacker_car_idx: 6,
            defender_car_idx: 7,
        }),
        ("ATTACKER", Some(6), Some(6), Some(7))
    );
    assert_eq!(
        role(RaceEvent::OvertakeForLead {
            lap,
            session_time,
            car_idx: 8,
            overtaken_car_idx: None,
            position_from: 2,
            positions_gained: 1,
        }),
        ("ATTACKER", Some(8), Some(8), None)
    );
    assert_eq!(
        role(RaceEvent::PitEntry { lap, session_time, player_car_idx: 0, position: 1 }),
        ("DRIVER", Some(0), None, None)
    );
    assert_eq!(
        role(RaceEvent::PublisherGoodbye {
            lap,
            session_time,
            reason: "shutdown",
            previous_sub_session_id: None,
        }),
        ("RIG", Some(0), None, None)
    );
    assert_eq!(
        role(RaceEvent::IncidentCluster {
            lap,
            session_time,
            bucket: 1,
            lap_dist_pct_from: 0,
            lap_dist_pct_to: 0,
            car_idxs: vec![9, 10],
            severity: 0,
            primary_car_idx: None,
            incident_type: None,
        }),
        ("INCIDENT", Some(9), None, None)
    );
    let yellow = |trigger_car_idx| RaceEvent::FlagYellowLocal {
        lap,
        session_time,
        trigger_car_idx,
        lap_dist_pct: None,
        sector: None,
        scope: FlagScope::Unknown,
        linked_incident_id: None,
    };
    assert_eq!(role(yellow(Some(3))), ("TRIGGER", Some(3), None, None));
    assert_eq!(role(yellow(None)), ("SESSION", None, None, None));
    assert_eq!(
        role(RaceEvent::FlagYellowFullCourse { lap, session_time }),
        ("SESSION", None, None, None)
    );
}

#[test]
fn drivers_are_known_by_account_or_by_name() {
    let roster = roster();
    let mut car = resolve_car(1, Some(&roster));
    assert_eq!(driver_id(&car), Some("user:7".to_owned()));
    car.user_id = None;
    assert_eq!(driver_id(&car), Some("name:james".to_owned()));
    car.driver_name = String::new();
    assert_eq!(driver_id(&car), None);
}

#[test]
fn every_field_of_the_event_is_in_the_payload() {
    let event = RaceEvent::SessionReset {
        lap: 3,
        session_time: s(5.5),
        previous_sub_session_id: Some(1),
        sub_session_id: 2,
        previous_session_num: None,
        session_num: 0,
        previous_session_time: None,
        reason: "sub_session_changed",
    };
    let payload = sent(&event)["payload"].clone();
    assert_eq!(payload["lap"], 3);
    assert_eq!(payload["session_time"], 5.5);
    assert_eq!(payload["previous_sub_session_id"], 1);
    assert_eq!(payload["subSessionId"], 2);
    assert_eq!(payload["previous_session_num"], Value::Null);
    assert_eq!(payload["reason"], "sub_session_changed");
}

#[test]
fn points_in_time_as_text() {
    assert_eq!(utc_from_ms(0), "1970-01-01T00:00:00.000Z");
    assert_eq!(utc_from_ms(1_788_391_719_745), "2026-09-02T23:28:39.745Z");
    assert_eq!(utc_from_ms(951_782_400_000), "2000-02-29T00:00:00.000Z");
    assert_eq!(utc_from_ms(951_868_799_999), "2000-02-29T23:59:59.999Z");
    assert_eq!(utc_from_ms(4_107_542_400_000), "2100-03-01T00:00:00.000Z");
    assert_eq!(utc_from_ms(-1), "1969-12-31T23:59:59.999Z");
    assert_eq!(utc_from_ms(253_402_300_799_999), "9999-12-31T23:59:59.999Z");
    assert_eq!(utc_from_ms(253_402_300_800_000), "10000-01-01T00:00:00.000Z");
}

#[test]
fn goodbye_says_that_the_publisher_shuts_down() {
    let goodbye = LifecyclePublisher::new("0.1.0").on_deactivate(26, s(1799.8));
    let json = sent(&goodbye);
    assert_eq!(json["payload"]["reason"], "shutdown");
    assert_eq!(json["payload"]["previousSubSessionId"], Value::Null);
    assert_eq!(json["payload"]["lap"], 26);
    assert_eq!(json["scope"], "RIG_SCOPED");
    assert_eq!(json["subject"]["role"], "RIG");
}

#[test]
fn a_transition_goodbye_names_the_sub_session_that_is_left() {
    let farewell = LifecyclePublisher::new("0.1.0").on_transition(3, s(5.0), 88_087_370);
    let json = sent(&farewell);
    assert_eq!(json["type"], "PUBLISHER_GOODBYE");
    assert_eq!(json["payload"]["reason"], "session_transition");
    assert_eq!(json["payload"]["previousSubSessionId"], 88_087_370);
    assert_eq!(json["raceSessionId"], "31337");
}

#[test]
fn a_report_names_its_neighbours() {
    let json = sent(&RaceEvent::DriverMaterial {
        lap: 12,
        session_time: s(1234.5),
        player_car_idx: 0,
        position: 5,
        laps_completed: 11,
        lap_dist_pct: s(0.51),
        last_lap_time_s: Some(s(88.2)),
        best_lap_time_s: Some(s(87.9)),
        gap_ahead_s: Some(s(1.4)),
        car_ahead_idx: Some(1),
        gap_behind_s: None,
        car_behind_idx: None,
        delta_to_best_s: Some(s(0.3)),
        sector_bucket: Some(4),
        sector_delta_to_best_s: Some(s(-0.12)),
        gap_ahead_trend: "CLOSING",
        gap_behind_trend: "UNKNOWN",
        effort: "PUSHING",
        on_pit_road: false,
        track_surface: 3,
        speed_mps: s(61.5),
        fuel_level_l: s(42.25),
        incident_count: 4,
        session_state: 4,
        interval_s: s(25.0),
    });
    assert_eq!(json["type"], "DRIVER_MATERIAL");
    assert_eq!(json["subject"]["role"], "DRIVER");
    let payload = &json["payload"];
    assert_eq!(payload["deltaToBest"], 0.3);
    assert_eq!(payload["sectorBucket"], 4);
    assert_eq!(payload["sectorDeltaToBest"], -0.12);
    assert_eq!(payload["gapAhead"], 1.4);
    assert_eq!(payload["carAhead"]["carNumber"], "007");
    assert_eq!(payload["gapBehind"], Value::Null);
    assert_eq!(payload["carBehind"], Value::Null);
    assert_eq!(payload["gapAheadTrend"], "CLOSING");
    assert_eq!(payload["gapBehindTrend"], "UNKNOWN");
    assert_eq!(payload["effort"], "PUSHING");
    assert_eq!(payload["interval_s"], 25.0);
}
