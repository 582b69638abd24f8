use director_narrative_core::session_info::{
    non_empty, parse_sub_session_id, CarRef, RosterCache, SessionInfoError, SessionInfoParser,
    SessionRoster,
};

/// Minimal SessionInfo YAML covering 4 drivers with varying optional fields.
const FIXTURE_YAML: &str = r#"
DriverInfo:
 DriverCarIdx: 0
 Drivers:
 - CarIdx: 0
   UserName: Paul Crofts
   UserID: 123456
   TeamName: Team Margic
   CarNumber: "42"
   CarClassID: 4011
   CarClassShortName: GTP
 - CarIdx: 1
   UserName: Alice Racer
   UserID: 234567
   TeamName: ""
   CarNumber: "7"
   CarClassID: 4011
   CarClassShortName: GTP
 - CarIdx: 2
   UserName: Bob Speedman
   CarNumber: "18"
   CarClassID: 2523
   CarClassShortName: LMP2
 - CarIdx: 63
   UserName: Pace Car
   UserID: 0
   CarNumber: "0"
   CarClassID: 11
   CarClassShortName: Pace
"#;

#[test]
fn parse_returns_all_drivers() {
    let roster = SessionInfoParser::build(FIXTURE_YAML).expect("parse should succeed");
    assert_eq!(roster.len(), 4);
}

#[test]
fn lookup_known_car_returns_correct_ref() {
    let roster = SessionInfoParser::build(FIXTURE_YAML).expect("parse");
    let car = roster.lookup(0).expect("carIdx 0 should exist");
    assert_eq!(car.car_number, "42");
    assert_eq!(car.driver_name, "Paul Crofts");
    assert_eq!(car.team_name, Some("Team Margic".to_string()));
    assert_eq!(car.car_class_short_name, Some("GTP".to_string()));
    assert_eq!(car.car_class_id, Some(4011));
    assert_eq!(car.user_id, Some(123456));
}

#[test]
fn lookup_unknown_car_returns_none() {
    let roster = SessionInfoParser::build(FIXTURE_YAML).expect("parse");
    assert!(roster.lookup(99).is_none());
}

#[test]
fn empty_team_name_normalised_to_none() {
    let roster = SessionInfoParser::build(FIXTURE_YAML).expect("parse");
    let car = roster.lookup(1).expect("carIdx 1 should exist");
    // TeamName was "": should be None after normalisation
    assert_eq!(car.team_name, None);
}

#[test]
fn absent_optional_fields_are_none() {
    let roster = SessionInfoParser::build(FIXTURE_YAML).expect("parse");
    let car = roster.lookup(2).expect("carIdx 2 should exist");
    // carIdx 2 has no TeamName or UserID keys at all
    assert_eq!(car.team_name, None);
    assert_eq!(car.user_id, None);
}

#[test]
fn high_car_idx_slot_parsed_correctly() {
    let roster = SessionInfoParser::build(FIXTURE_YAML).expect("parse");
    let car = roster.lookup(63).expect("carIdx 63 (pace car) should exist");
    assert_eq!(car.car_number, "0");
    assert_eq!(car.driver_name, "Pace Car");
}

#[test]
fn roster_cache_starts_needing_update() {
    let cache = RosterCache::new();
    assert!(cache.needs_update(1));
    assert!(cache.roster().is_none());
}

#[test]
fn roster_cache_satisfied_after_update() {
    let mut cache = RosterCache::new();
    cache.update(5, FIXTURE_YAML).expect("update should succeed");
    assert!(!cache.needs_update(5));
    assert!(cache.needs_update(6));
}

#[test]
fn roster_cache_retains_roster_on_bad_yaml() {
    let mut cache = RosterCache::new();
    cache.update(1, FIXTURE_YAML).expect("first update");
    // Simulate a corrupted re-read: the parse fails
    let result = cache.update(2, "not: valid: yaml: at: all: {{");
    assert!(result.is_err());
    // Previous roster is still accessible and tick has NOT advanced
    assert!(cache.needs_update(2));
    assert!(cache.roster().is_some());
}

#[test]
fn roster_cache_lookup_via_cache() {
    let mut cache = RosterCache::new();
    cache.update(3, FIXTURE_YAML).expect("update");
    let car = cache
        .roster()
        .and_then(|r| r.lookup(0))
        .expect("should find carIdx 0");
    assert_eq!(car.driver_name, "Paul Crofts");
}

fn error_of(text: &str) -> SessionInfoError {
    match SessionInfoParser::build(text) {
        Ok(_) => panic!("expected an error"),
        Err(e) => e,
    }
}

#[test]
fn each_way_a_session_info_can_be_wrong() {
    assert!(matches!(error_of("not: valid: yaml: at: all: {{"), SessionInfoError::Yaml(_)));
    assert!(matches!(error_of("WeekendInfo: {}"), SessionInfoError::NoDrivers));
    assert!(matches!(error_of("DriverInfo: {Drivers: 7}"), SessionInfoError::NoDrivers));
    let no_name = "DriverInfo:\n Drivers:\n - {CarIdx: 1, UserName: A, CarNumber: \"1\"}\n - {CarIdx: 2, CarNumber: \"2\"}\n";
    assert!(matches!(error_of(no_name), SessionInfoError::BadDriver(1)));
    let far = "DriverInfo:\n Drivers:\n - {CarIdx: 256, UserName: A, CarNumber: \"1\"}\n";
    assert!(matches!(error_of(far), SessionInfoError::BadDriver(0)));
    let wrong = "DriverInfo:\n Drivers:\n - {CarIdx: 1, UserName: A, CarNumber: \"1\", UserID: x}\n";
    assert!(matches!(error_of(wrong), SessionInfoError::BadDriver(0)));
}

#[test]
fn a_cache_passes_on_what_is_wrong() {
    let mut cache = RosterCache::new();
    assert!(matches!(cache.update(1, "WeekendInfo: {}"), Err(SessionInfoError::NoDrivers)));
    let bad = "DriverInfo:\n Drivers:\n - {CarIdx: 1, UserName: A, CarNumber: \"1\"}\n - 7\n - 8\n";
    assert!(matches!(cache.update(1, bad), Err(SessionInfoError::BadDriver(1))));
    assert!(cache.roster().is_none());
    assert!(cache.needs_update(1));
}

#[test]
fn a_list_that_is_left_empty_is_an_empty_roster() {
    let roster = SessionInfoParser::build("DriverInfo:\n Drivers:\n").expect("parse");
    assert!(roster.is_empty());
    assert!(matches!(error_of("DriverInfo:\n"), SessionInfoError::NoDrivers));
}

#[test]
fn a_name_that_reads_like_a_fraction_is_a_name() {
    let text = "DriverInfo:\n Drivers:\n - {CarIdx: 1, UserName: 1.5, CarNumber: 2.25}\n";
    let roster = SessionInfoParser::build(text).expect("parse");
    assert_eq!(roster.lookup(1).unwrap().driver_name, "1.5");
    assert_eq!(roster.lookup(1).unwrap().car_number, "2.25");
}

#[test]
fn an_entry_written_as_a_list_is_no_entry() {
    let text = "DriverInfo:\n Drivers:\n - [1, A, 7, T, \"1\", 2, C]\n";
    assert!(matches!(error_of(text), SessionInfoError::BadDriver(0)));
    assert!(matches!(error_of("DriverInfo: [[]]"), SessionInfoError::NoDrivers));
}

#[test]
fn an_empty_driver_list_is_an_empty_roster() {
    let roster = SessionInfoParser::build("DriverInfo: {Drivers: []}").expect("parse");
    assert_eq!(roster.len(), 0);
    assert!(roster.is_empty());
}

#[test]
fn null_optional_fields_are_none() {
    let text = "DriverInfo:\n Drivers:\n - {CarIdx: 1, UserName: A, CarNumber: \"1\", UserID: ~, TeamName: ~}\n";
    let roster = SessionInfoParser::build(text).expect("parse");
    let car = roster.lookup(1).unwrap();
    assert_eq!(car.user_id, None);
    assert_eq!(car.team_name, None);
}

fn named(car_idx: u8, driver_name: &str) -> CarRef {
    CarRef {
        car_idx,
        car_number: car_idx.to_string(),
        driver_name: driver_name.to_owned(),
        team_name: None,
        car_class_short_name: None,
        car_class_id: None,
        user_id: None,
        irating: None,
        lic_string: None,
        flair_name: None,
    }
}

#[test]
fn the_last_entry_of_a_slot_counts() {
    let roster = SessionRoster::from_cars(vec![named(4, "first"), named(5, "other"), named(4, "last")]);
    assert_eq!(roster.len(), 2);
    assert_eq!(roster.lookup(4).unwrap().driver_name, "last");
}

#[test]
fn blank_texts_count_as_absent() {
    assert_eq!(non_empty(None), None);
    assert_eq!(non_empty(Some(String::new())), None);
    assert_eq!(non_empty(Some(" \t ".to_owned())), None);
    assert_eq!(non_empty(Some(" a ".to_owned())), Some(" a ".to_owned()));
}

#[test]
fn sub_session_is_read_from_weekend_info() {
    assert_eq!(parse_sub_session_id("WeekendInfo:\n SubSessionID: 88087370\n"), Some(88_087_370));
    assert_eq!(parse_sub_session_id("WeekendInfo:\n SubSessionID: none\n"), None);
    assert_eq!(parse_sub_session_id("WeekendInfo: {}"), None);
    assert_eq!(parse_sub_session_id(FIXTURE_YAML), None);
    assert_eq!(parse_sub_session_id("{{"), None);
}
