use director_narrative_core::json::Json;
use director_narrative_core::publisher_event::{build_event, envelop, PublisherEvent, PublisherRun, Stamp};
use director_narrative_core::race_event::{LifecycleOrigin, RaceEvent};
use director_narrative_core::telemetry_frame::TelemetryFrame;
use director_narrative_core::transport::{
    ingest_body, BatchPost, FlushAction, PostAction, PostReply, PublisherTransport, TokenReply,
};
use serde_json::Value;

/// Seconds (or another quantity) in millionths.
fn s(x: f64) -> i64 {
    (x * 1e6).round() as i64
}

fn value(json: &Json) -> Value {
    match json {
        Json::Null => Value::Null,
        Json::Bool(b) => Value::Bool(*b),
        Json::Int(n) => Value::from(*n as i64),
        Json::Decimal(m) => Value::from(*m as f64 / 1e6),
        Json::Text(t) => Value::String(t.clone()),
        Json::List(items) => Value::Array(items.iter().map(value).collect()),
        Json::Object(fields) => {
            let mut map = serde_json::Map::new();
            for field in fields {
                assert!(map.insert(field.key.clone(), value(&field.value)).is_none());
            }
            Value::Object(map)
        }
    }
}

fn minimal_frame() -> TelemetryFrame {
    TelemetryFrame {
        lap: 1,
        session_time: s(10.0),
        lap_dist_pct: s(0.5),
        player_car_idx: 0,
        player_car_position: 5,
        on_pit_road: false,
        session_flags: 0,
        car_idx_lap_dist_pct: vec![s(0.5)],
        car_idx_position: vec![5],
        car_idx_on_pit_road: vec![false],
        car_idx_track_surface: vec![0],
        lap_last_lap_time: s(540.0),
        session_info_update: 1,
        session_tick: 100,
        session_state: 4,
        session_num: 0,
        player_incident_count: 0,
        car_idx_lap_completed: vec![1],
        lf_temp_m: 0,
        rf_temp_m: 0,
        lr_temp_m: 0,
        rr_temp_m: 0,
        fuel_level: 0,
        throttle: 0,
        brake: 0,
        speed: 0,
    }
}

fn green() -> RaceEvent {
    RaceEvent::RaceGreen {
        lap: 1,
        session_time: s(10.0),
        synthetic: false,
        origin: LifecycleOrigin::SessionStateTransition,
    }
}

const NOW_MS: u64 = 1_700_000_000_000;
const NOW_S: u64 = 1_700_000_000;

fn make_transport(server_url: &str) -> PublisherTransport {
    let mut t = PublisherTransport::new(
        "tenant", "client", "secret", "scope",
        server_url, 500, NOW_MS,
    );
    t.on_token_reply(TokenReply::Granted("test-bearer-token".to_owned(), 3_600), NOW_S).unwrap();
    t
}

#[test]
fn post_batch_includes_auth_header_and_json_shape() {
    let event = build_event(&green(), &minimal_frame(), None, "session-xyz", "rig-001", 1, &mut PublisherRun::new());
    let mut transport = make_transport("http://127.0.0.1:1234");
    transport.enqueue(event);

    assert_eq!(transport.ingest_url(), "http://127.0.0.1:1234/api/publisher/v2/ingest");
    assert!(!transport.needs_token(false, NOW_S));
    assert_eq!(transport.authorization(), Some("Bearer test-bearer-token".to_owned()));
    let batch = match transport.begin_flush() {
        FlushAction::Post(batch) => batch,
        _ => panic!("one event is waiting"),
    };
    let json = value(&ingest_body(&batch, s(10.0), 100, 99999));
    assert_eq!(json["subSessionId"], 99999_i64);
    assert_eq!(json["events"][0]["raceSessionId"], "session-xyz");
    assert_eq!(json["events"][0]["rigId"], "rig-001");

    let mut post = BatchPost::new();
    assert!(matches!(post.on_reply(PostReply::Success), PostAction::Delivered));
    assert!(matches!(transport.batch_posted(NOW_MS + 10), FlushAction::Done(true)));
}

#[test]
fn ingest_request_serialises_to_expected_shape() {
    let event = build_event(&green(), &minimal_frame(), None, "session-xyz", "rig-001", 1, &mut PublisherRun::new());

    let json: Value = value(&ingest_body(&vec![event], s(10.0), 100, 99999));
    assert_eq!(json["subSessionId"], 99999_i64);
    assert_eq!(json["sessionTime"],  10.0_f64);
    assert_eq!(json["sessionTick"],  100_i64);
    assert!(json["events"].is_array());
    assert_eq!(json["events"].as_array().unwrap().len(), 1);
    assert_eq!(json["events"][0]["type"], "RACE_GREEN");
}

#[test]
fn token_is_reused_across_calls() {
    let mut transport = make_transport("http://127.0.0.1:1234");
    let frame = minimal_frame();

    for i in 0..2u64 {
        let event = build_event(&green(), &frame, None, "s", "r", 1, &mut PublisherRun::new());
        transport.enqueue(event);
        // No token is fetched: the one that was granted still holds.
        assert!(!transport.needs_token(false, NOW_S + i));
        assert!(matches!(transport.begin_flush(), FlushAction::Post(_)));
        assert!(matches!(transport.batch_posted(NOW_MS + i), FlushAction::Done(true)));
    }
}

#[test]
fn warmup_auth_succeeds_with_cached_token() {
    let transport = make_transport("http://localhost");
    assert!(!transport.needs_token(false, NOW_S), "warmup should use cached token");
    assert!(transport.token_expires_at().is_some());
}

#[test]
fn tokens_are_refreshed_a_minute_before_they_expire() {
    let transport = make_transport("http://localhost");
    assert_eq!(transport.token_expires_at(), Some(NOW_S + 3_600));
    assert!(!transport.needs_token(false, NOW_S + 3_500));
    assert!(!transport.needs_token(false, NOW_S + 3_539));
    assert!(transport.needs_token(false, NOW_S + 3_540));
    assert!(transport.needs_token(true, NOW_S));
}

#[test]
fn without_a_token_there_is_no_authorization() {
    let mut transport = make_transport("http://localhost");
    transport.forget_token();
    assert!(transport.needs_token(false, NOW_S));
    assert_eq!(transport.authorization(), None);
    assert_eq!(transport.token_expires_at(), None);
    assert_eq!(transport.token_url(), "https://login.microsoftonline.com/tenant/oauth2/v2.0/token");
    let form = transport.token_form();
    assert_eq!(form[0], ("grant_type", "client_credentials"));
    assert_eq!(form[1], ("client_id", "client"));
    assert_eq!(form[2], ("client_secret", "secret"));
    assert_eq!(form[3], ("scope", "scope"));
}

#[test]
fn failed_token_requests_say_why_and_keep_the_token() {
    let mut transport = make_transport("http://localhost");
    let e = transport.on_token_reply(TokenReply::Status(400, "no".to_owned()), NOW_S).unwrap_err();
    assert_eq!(e.message(), "token request failed: status 400 — no");
    let e = transport.on_token_reply(TokenReply::Network("down".to_owned()), NOW_S).unwrap_err();
    assert_eq!(e.message(), "token request failed: down");
    let e = transport.on_token_reply(TokenReply::BadBody("eof".to_owned()), NOW_S).unwrap_err();
    assert_eq!(e.message(), "token response parse error: eof");
    assert!(transport.authorization().is_some());
}

fn numbered(n: usize) -> PublisherEvent {
    let stamp = Stamp {
        sub_session_id: 1,
        run_id: "run".to_owned(),
        sequence: n as u64,
        id: n.to_string(),
        timestamp: 0,
    };
    envelop(&green(), &minimal_frame(), None, "s", "r", stamp)
}

#[test]
fn a_flush_sends_everything_in_order_in_batches_of_twenty() {
    let mut transport = make_transport("http://localhost");
    for n in 0..45 {
        transport.enqueue(numbered(n));
    }
    let mut ids = Vec::new();
    let mut sizes = Vec::new();
    let mut action = transport.begin_flush();
    loop {
        match action {
            FlushAction::Post(batch) => {
                sizes.push(batch.len());
                ids.extend(batch.iter().map(|e| e.id.clone()));
                action = transport.batch_posted(NOW_MS + 1);
            }
            FlushAction::Print(_) => panic!("this is no dry run"),
            FlushAction::Done(sent) => {
                assert!(sent);
                break;
            }
        }
    }
    assert_eq!(sizes, vec![20, 20, 5]);
    let expected: Vec<String> = (0..45).map(|n: usize| n.to_string()).collect();
    assert_eq!(ids, expected);
    assert!(matches!(transport.begin_flush(), FlushAction::Done(false)));
}

#[test]
fn a_flush_is_due_after_the_interval_or_with_a_full_batch() {
    let mut transport = make_transport("http://localhost");
    assert!(!transport.is_due(NOW_MS + 499));
    assert!(transport.is_due(NOW_MS + 500));
    for n in 0..19 {
        transport.enqueue(numbered(n));
    }
    assert!(!transport.is_due(NOW_MS));
    transport.enqueue(numbered(19));
    assert!(transport.is_due(NOW_MS));
    // The interval starts anew when everything is sent.
    transport.begin_flush();
    transport.batch_posted(NOW_MS + 300);
    assert!(!transport.is_due(NOW_MS + 799));
    assert!(transport.is_due(NOW_MS + 800));
}

#[test]
fn a_dry_run_prints_its_batches() {
    let mut transport = make_transport("http://localhost");
    transport.set_dry_run(true);
    for n in 0..21 {
        transport.enqueue(numbered(n));
    }
    match transport.begin_flush() {
        FlushAction::Print(batch) => assert_eq!(batch.len(), 20),
        _ => panic!("a dry run sends nothing"),
    }
    match transport.batch_posted(NOW_MS) {
        FlushAction::Print(batch) => assert_eq!(batch[0].id, "20"),
        _ => panic!("a dry run sends nothing"),
    }
    assert!(matches!(transport.batch_posted(NOW_MS), FlushAction::Done(true)));
}

#[test]
fn failures_are_retried_three_times_with_growing_delays() {
    let mut post = BatchPost::new();
    assert!(matches!(post.on_reply(PostReply::Status(503)), PostAction::Retry(500)));
    assert!(matches!(post.on_reply(PostReply::Network("x".to_owned())), PostAction::Retry(1_000)));
    assert!(matches!(post.on_reply(PostReply::Status(500)), PostAction::Retry(2_000)));
    match post.on_reply(PostReply::Status(502)) {
        PostAction::Fail(e) => assert_eq!(e.message(), "max retries exceeded: HTTP 502"),
        _ => panic!("the attempts are used up"),
    }
}

#[test]
fn the_first_401_refreshes_the_token_once() {
    let mut post = BatchPost::new();
    assert!(matches!(post.on_reply(PostReply::Status(401)), PostAction::RefreshAndRetry));
    match post.on_reply(PostReply::Status(401)) {
        PostAction::Fail(e) => {
            assert_eq!(e.message(), "HTTP 401 after forced token refresh — fatal")
        }
        _ => panic!("the refresh is used up"),
    }

    let mut post = BatchPost::new();
    post.on_reply(PostReply::Status(401));
    match post.on_reply(PostReply::Network("down".to_owned())) {
        PostAction::Fail(e) => assert_eq!(e.message(), "network error after token refresh: down"),
        _ => panic!("the refresh is used up"),
    }

    let mut post = BatchPost::new();
    post.on_reply(PostReply::Status(401));
    assert!(matches!(post.on_reply(PostReply::Success), PostAction::Delivered));
}

#[test]
fn a_later_401_is_fatal() {
    let mut post = BatchPost::new();
    post.on_reply(PostReply::Status(500));
    match post.on_reply(PostReply::Status(401)) {
        PostAction::Fail(e) => assert_eq!(e.message(), "401 after forced token refresh — fatal"),
        _ => panic!("a later 401 is fatal"),
    }
}
