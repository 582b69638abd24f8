use director_narrative_core::irsdk::{
    after_wait, buffer_range, judge_attach, judge_wait, AfterWait, Attach, IrsdkError,
};
use director_narrative_core::irsdk_header::{
    find_var, has_required_vars, latest_buf, latest_row_range, parse_header, read_i32,
    required_vars, session_text_range, sim_connected, VarBuf, VarInfo,
};
use director_narrative_core::js_event::{into_core_frame, into_js_event, JsFrame};
use director_narrative_core::json::{Field, Json, Record};
use director_narrative_core::live_session::{LiveEngine, DEFAULT_ANCHOR_COUNT};
use director_narrative_core::publisher_status::{
    EventLogEntry, FlushOutcome, PublisherStatus, EVENT_LOG_CAPACITY,
};
use director_narrative_core::race_event::RaceEvent;
use director_narrative_core::replay::{anchor_count_for, compute_anchor_count, replay_frames};
use director_narrative_core::status_view::{
    counter_lines, event_colour, event_row, footer, iracing_status, rc_status, response_line,
    session_line, sub_session_line, token_line, Colour,
};
use director_narrative_core::telemetry_frame::TelemetryFrame;
use director_narrative_core::text::{
    begins_with, decimal_text, integer_text, is_blank, parse_u64, push_hex, push_one_decimal,
    push_padded_left, push_padded_right, snake_to_camel,
};

/// Seconds (or another quantity) in millionths.
fn s(x: f64) -> i64 {
    (x * 1e6).round() as i64
}

#[test]
fn numbers_as_text_and_back() {
    assert_eq!(decimal_text(0), "0");
    assert_eq!(decimal_text(u64::MAX), "18446744073709551615");
    assert_eq!(integer_text(-42), "-42");
    assert_eq!(integer_text(i64::MIN), "-9223372036854775808");
    assert_eq!(parse_u64("18446744073709551615"), Some(u64::MAX));
    assert_eq!(parse_u64("18446744073709551616"), None);
    assert_eq!(parse_u64("+7"), Some(7));
    assert_eq!(parse_u64("007"), Some(7));
    assert_eq!(parse_u64(""), None);
    assert_eq!(parse_u64("+"), None);
    assert_eq!(parse_u64(" 7"), None);
    assert_eq!(parse_u64("-7"), None);
}

#[test]
fn camel_case_of_snake_case() {
    assert_eq!(snake_to_camel("lap_dist_pct"), "lapDistPct");
    assert_eq!(snake_to_camel("lap"), "lap");
    assert_eq!(snake_to_camel("a_1b"), "a1b");
    assert_eq!(snake_to_camel("trailing_"), "trailing");
    assert_eq!(snake_to_camel(""), "");
}

#[test]
fn small_text_helpers() {
    assert!(is_blank(""));
    assert!(is_blank(" \t\n"));
    assert!(!is_blank(" x "));
    assert!(begins_with("BATTLE_CLOSING", "BATTLE_"));
    assert!(!begins_with("BATT", "BATTLE_"));
    let mut t = String::new();
    push_one_decimal(&mut t, s(1234.56));
    t.push(' ');
    push_one_decimal(&mut t, s(-0.25));
    t.push(' ');
    push_hex(&mut t, 0xBEEF, 8);
    assert_eq!(t, "1234.6 -0.2 0000beef");
    let mut t = String::new();
    push_padded_left(&mut t, "ab", 4);
    push_padded_right(&mut t, "cd", 3);
    push_padded_left(&mut t, "toolong", 2);
    assert_eq!(t, "  abcd toolong");
}

#[test]
fn records_keep_their_order_and_their_keys() {
    let mut r = Record::new();
    r.push("a", Json::Int(1));
    r.set("b", Json::Bool(true));
    r.set("a", Json::Null);
    assert_eq!(r.len(), 2);
    assert!(r.has("b"));
    assert!(!r.has("c"));
    assert_eq!(r.field(0).key, "a");
    assert!(matches!(r.field(0).value, Json::Null));
    assert!(matches!(r.into_json(), Json::Object(fields) if fields.len() == 2));
}

#[test]
fn keys_turn_to_camel_case_at_every_depth() {
    let inner = Json::Object(vec![Field { key: "n_agree".to_owned(), value: Json::Int(3) }]);
    let outer = Json::List(vec![Json::Object(vec![Field { key: "slope_info".to_owned(), value: inner }])]);
    let camel = outer.camel_keys();
    match &camel {
        Json::List(items) => match &items[0] {
            Json::Object(fields) => {
                assert_eq!(fields[0].key, "slopeInfo");
                match &fields[0].value {
                    Json::Object(f) => assert_eq!(f[0].key, "nAgree"),
                    _ => panic!("expected an object"),
                }
            }
            _ => panic!("expected an object"),
        },
        _ => panic!("expected a list"),
    }
    match outer.copy() {
        Json::List(items) => assert!(matches!(&items[0], Json::Object(f) if f[0].key == "slope_info")),
        _ => panic!("expected a list"),
    }
}

fn entry(n: usize) -> EventLogEntry {
    EventLogEntry {
        session_time: s(n as f64),
        event_type: "LAP_COMPLETED".to_owned(),
        car_number: "42".to_owned(),
        driver_name: "Pat".to_owned(),
    }
}

#[test]
fn the_event_log_holds_the_newest_fifty() {
    let mut status = PublisherStatus::default();
    for n in 0..60 {
        status.push_event_log(entry(n));
    }
    assert_eq!(status.event_log.len(), EVENT_LOG_CAPACITY);
    assert_eq!(status.event_log[0], entry(59));
    assert_eq!(status.event_log[49], entry(10));
}

#[test]
fn flushes_are_counted() {
    let mut status = PublisherStatus::default();
    status.record_flush(FlushOutcome::Nothing);
    assert_eq!((status.calls_total, status.calls_failed, status.rc_connected), (0, 0, false));
    status.record_flush(FlushOutcome::Posted);
    assert_eq!((status.calls_total, status.calls_failed, status.rc_connected), (1, 0, true));
    status.record_flush(FlushOutcome::Failed);
    assert_eq!((status.calls_total, status.calls_failed, status.rc_connected), (2, 1, false));
    status.calls_total = u64::MAX;
    status.record_flush(FlushOutcome::Posted);
    assert_eq!(status.calls_total, u64::MAX);
}

#[test]
fn status_window_texts() {
    let mut st = PublisherStatus::default();
    assert_eq!(rc_status(&st), (Colour::Grey, "WAITING"));
    assert_eq!(iracing_status(&st), (Colour::Grey, "WAITING FOR SIMULATOR"));
    assert_eq!(sub_session_line(&st), None);
    st.calls_total = 3;
    assert_eq!(rc_status(&st), (Colour::Amber, "DEGRADED"));
    st.rc_last_http_status = Some(403);
    assert_eq!(rc_status(&st), (Colour::Red, "AUTH FAILED"));
    st.rc_last_http_status = Some(503);
    assert_eq!(rc_status(&st), (Colour::Amber, "RETRYING"));
    st.rc_connected = true;
    st.iracing_connected = true;
    assert_eq!(rc_status(&st), (Colour::Green, "CONNECTED"));
    assert_eq!(iracing_status(&st), (Colour::Green, "CONNECTED"));
    st.track_name = Some("Spa".to_owned());
    st.current_lap = 7;
    assert_eq!(session_line(&st), "Spa  ·  —  ·  Lap 7  /  —");
    st.sub_session_id = Some(88);
    st.session_tick = 60;
    st.session_time_secs = s(1.26);
    assert_eq!(sub_session_line(&st), Some("SubSession #88  ·  Tick 60  ·  t=1.3s".to_owned()));
    assert_eq!(token_line(1_000, 1_001), ("Token expired".to_owned(), Colour::Red));
    assert_eq!(token_line(1_299, 1_000), ("Token expires in 4 min".to_owned(), Colour::Amber));
    assert_eq!(token_line(1_300, 1_000), ("Token expires in 5 min".to_owned(), Colour::Dim));
    assert_eq!(response_line(202), ("Last response: 202".to_owned(), Colour::Dim));
    assert_eq!(response_line(500), ("Last response: 500".to_owned(), Colour::Amber));
    st.calls_failed = 1;
    st.events_enqueued_total = 12;
    let (total, calls, errors, colour) = counter_lines(&st);
    assert_eq!((total.as_str(), calls.as_str(), errors.as_str()), ("Total: 12", "Calls: 3", "Errors: 1"));
    assert_eq!(colour, Colour::Amber);
    assert_eq!(event_colour("BATTLE_CLOSING"), (Colour::Amber, false));
    assert_eq!(event_colour("OVERTAKE"), (Colour::Green, false));
    assert_eq!(event_colour("OVERTAKE_FOR_LEAD"), (Colour::Dim, false));
    assert_eq!(event_colour("PIT_EXIT"), (Colour::Cyan, false));
    assert_eq!(event_colour("RACE_GREEN"), (Colour::White, true));
    assert_eq!(event_colour("LAP_COMPLETED"), (Colour::LightGrey, false));
    assert_eq!(event_row(&entry(3)), "t=    3.0  LAP_COMPLETED             #42 Pat");
    assert_eq!(footer("x.toml"), "publisher.toml  ·  x.toml");
}

fn all_there() -> Attach {
    Attach {
        mapping_opened: true,
        view_mapped: true,
        header_parsed: true,
        sim_connected: true,
        index_built: true,
        vars_present: true,
        event_opened: true,
    }
}

#[test]
fn the_first_obstacle_decides_a_connection() {
    assert_eq!(judge_attach(&all_there()), Ok(()));
    assert_eq!(judge_attach(&Attach { mapping_opened: false, ..all_there() }), Err(IrsdkError::NotRunning));
    assert_eq!(judge_attach(&Attach { header_parsed: false, ..all_there() }), Err(IrsdkError::BadHeader));
    assert_eq!(judge_attach(&Attach { sim_connected: false, ..all_there() }), Err(IrsdkError::NotRunning));
    assert_eq!(judge_attach(&Attach { index_built: false, ..all_there() }), Err(IrsdkError::BadHeader));
    assert_eq!(judge_attach(&Attach { vars_present: false, ..all_there() }), Err(IrsdkError::MissingVars));
    assert_eq!(judge_attach(&Attach { event_opened: false, ..all_there() }), Err(IrsdkError::NotRunning));
    assert_eq!(IrsdkError::NotRunning.message(), "iRacing is not running");
    assert_eq!(IrsdkError::BadHeader.message(), "irsdk header parse failed");
    assert_eq!(
        IrsdkError::MissingVars.message(),
        "required telemetry variables missing from index"
    );
    assert_eq!(IrsdkError::Os(0x80).message(), "Windows API error 0x00000080");
}

#[test]
fn replies_of_the_wait_call() {
    assert_eq!(judge_wait(0), Ok(true));
    assert_eq!(judge_wait(0x102), Ok(false));
    assert_eq!(judge_wait(0xFFFF_FFFF), Err(IrsdkError::Os(0xFFFF_FFFF)));
    assert_eq!(after_wait(&Ok(true), false), AfterWait::Read);
    assert_eq!(after_wait(&Ok(false), true), AfterWait::WaitAgain);
    assert_eq!(after_wait(&Ok(false), false), AfterWait::Reconnect);
    assert_eq!(after_wait(&Err(IrsdkError::Os(6)), true), AfterWait::Reconnect);
}

#[test]
fn buffers_lie_inside_the_mapped_memory() {
    assert_eq!(buffer_range(10, 20, 30), Some((10, 30)));
    assert_eq!(buffer_range(11, 20, 30), None);
    assert_eq!(buffer_range(-1, 20, 30), None);
    assert_eq!(buffer_range(40, 0, 30), None);
}

fn frame(lap: u8, t: f64, last: f64) -> TelemetryFrame {
    into_core_frame(JsFrame {
        lap: lap as u32 + 256,
        session_time: s(t),
        lap_dist_pct: s(0.5),
        player_car_idx: 0,
        player_car_position: 5,
        on_pit_road: false,
        session_flags: 0,
        car_idx_lap_dist_pct: vec![s(0.5)],
        car_idx_position: vec![261],
        car_idx_on_pit_road: vec![false],
    })
    .with_last(last)
}

trait WithLast {
    fn with_last(self, last: f64) -> Self;
}

impl WithLast for TelemetryFrame {
    fn with_last(self, last: f64) -> Self {
        TelemetryFrame { lap_last_lap_time: s(last), ..self }
    }
}

#[test]
fn host_frames_are_narrowed() {
    let f = frame(3, 1.5, 0.0);
    assert_eq!(f.lap, 3);
    assert_eq!(f.car_idx_position, vec![5]);
    assert_eq!(f.session_time, s(1.5));
    assert_eq!(f.session_state, 0);
}

#[test]
fn host_events_hold_the_context_in_camel_case() {
    let js = into_js_event(&RaceEvent::PitEntry {
        lap: 3,
        session_time: s(9.0),
        player_car_idx: 1,
        position: 5,
    });
    assert_eq!(js.event_type, "PIT_ENTRY");
    assert_eq!(js.lap, 3);
    assert_eq!(js.session_time, s(9.0));
    match js.narrative_context {
        Json::Object(fields) => {
            let keys: Vec<String> = fields.iter().map(|f| f.key.clone()).collect();
            assert_eq!(keys, vec!["playerCarIdx".to_owned(), "position".to_owned()]);
        }
        _ => panic!("expected an object"),
    }
}

#[test]
fn anchors_for_a_lap_time() {
    assert_eq!(anchor_count_for(s(540.0)), 108);
    assert_eq!(anchor_count_for(s(90.0)), 18);
    assert_eq!(anchor_count_for(s(20.0)), 10);
    assert_eq!(anchor_count_for(s(-1.0)), 10);
}

#[test]
fn a_replay_takes_its_anchors_from_the_first_lap() {
    let frames = vec![frame(1, 0.0, 0.0), frame(1, 50.0, 0.0), frame(2, 100.0, 0.0)];
    assert_eq!(compute_anchor_count(&frames), 20);
    assert_eq!(compute_anchor_count(&vec![frame(1, 0.0, 0.0)]), 108);
    let events = replay_frames(&frames);
    assert!(events.iter().any(|e| matches!(
        e,
        RaceEvent::LapCompleted { lap: 1, lap_time_s: Some(100_000_000), .. }
    )));
    assert!(replay_frames(&vec![]).is_empty());
}

#[test]
fn a_live_engine_is_rebuilt_when_the_lap_time_is_known() {
    assert_eq!(DEFAULT_ANCHOR_COUNT, 108);
    let mut live = LiveEngine::new(DEFAULT_ANCHOR_COUNT);
    let entry = TelemetryFrame { on_pit_road: true, ..frame(1, 0.0, 0.0) };
    assert!(live.on_frame(&entry).iter().any(|e| matches!(e, RaceEvent::PitEntry { .. })));
    // The lap time asks for 18 anchors: what the first engine saw is forgotten.
    let timed = TelemetryFrame { on_pit_road: true, ..frame(1, 1.0, 90.0) };
    assert!(live.on_frame(&timed).iter().any(|e| matches!(e, RaceEvent::PitEntry { .. })));
    // Once settled the number stays.
    let slower = TelemetryFrame { on_pit_road: true, ..frame(1, 2.0, 200.0) };
    assert!(live.on_frame_js(&slower).is_empty());
}

fn put(bytes: &mut [u8], at: usize, n: i32) {
    bytes[at..at + 4].copy_from_slice(&n.to_le_bytes());
}

/// A memory image: header, one row of each tick, the named variables, a text.
fn image(ticks: &[i32], names: &[&str], text: &str) -> Vec<u8> {
    let text_at = 112 + 144 * names.len();
    let mut bytes = vec![0u8; text_at];
    put(&mut bytes, 4, 1);
    put(&mut bytes, 12, 9);
    put(&mut bytes, 16, text.len() as i32 + 1);
    put(&mut bytes, 20, text_at as i32);
    put(&mut bytes, 24, names.len() as i32);
    put(&mut bytes, 28, 112);
    put(&mut bytes, 32, ticks.len() as i32);
    put(&mut bytes, 36, 8);
    for (i, tick) in ticks.iter().enumerate() {
        put(&mut bytes, 48 + 16 * i, *tick);
        put(&mut bytes, 52 + 16 * i, 1_000 + 8 * i as i32);
    }
    for (i, name) in names.iter().enumerate() {
        let at = 112 + 144 * i;
        put(&mut bytes, at, 4);
        put(&mut bytes, at + 4, 4 * i as i32);
        put(&mut bytes, at + 8, 1);
        for (k, c) in name.bytes().enumerate() {
            bytes[at + 16 + k] = c;
        }
    }
    bytes.extend_from_slice(text.as_bytes());
    bytes.push(0);
    bytes
}

#[test]
fn headers_are_read_from_the_memory() {
    let bytes = image(&[5, 9, 7], &["Lap", "LapDistPct"], "WeekendInfo:");
    let h = parse_header(&bytes).unwrap();
    assert_eq!(h.session_info_update, 9);
    assert_eq!(h.buf_len, 8);
    assert_eq!(h.var_bufs.len(), 3);
    assert!(sim_connected(h.status));
    assert!(!sim_connected(2));
    assert!(sim_connected(-1));
    assert_eq!(latest_buf(&h.var_bufs), VarBuf { tick_count: 9, buf_offset: 1_008 });
    assert_eq!(latest_row_range(&h, 2_000), Some((1_008, 1_016)));
    assert_eq!(latest_row_range(&h, 1_010), None);
    assert_eq!(find_var(&bytes, &h, "LapDistPct"), Some(VarInfo { kind: 4, offset: 4, count: 1 }));
    assert_eq!(find_var(&bytes, &h, "LapDist"), None);
    let (from, to) = session_text_range(&bytes, &h).unwrap();
    assert_eq!(&bytes[from..to], "WeekendInfo:".as_bytes());
    assert!(!has_required_vars(&bytes, &h));
    let all = image(&[1], &required_vars(), "");
    assert!(has_required_vars(&all, &parse_header(&all).unwrap()));
}

#[test]
fn headers_that_make_no_sense_are_refused() {
    let bytes = image(&[5], &["Lap"], "");
    assert!(parse_header(&bytes[..111]).is_none());
    assert!(parse_header(&bytes[..112]).is_some());
    let mut no_rows = bytes.clone();
    no_rows[32] = 0;
    assert!(parse_header(&no_rows).is_none());
    let mut many_rows = bytes.clone();
    many_rows[32] = 5;
    assert!(parse_header(&many_rows).is_none());
    let mut negative = bytes.clone();
    negative[27] = 0x80;
    assert!(parse_header(&negative).is_none());
    // A catalogue that runs over the end holds what lies inside.
    let h = parse_header(&bytes).unwrap();
    assert_eq!(find_var(&bytes[..200], &h, "Lap"), None);
    assert_eq!(read_i32(&[0xFF, 0xFF, 0xFF, 0xFF], 0), Some(-1));
    assert_eq!(read_i32(&[1, 2, 3, 4], 0), Some(0x0403_0201));
    assert_eq!(read_i32(&[1, 2, 3, 4], 1), None);
}
