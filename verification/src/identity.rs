//! Who an event comes from and who it is about.

use vstd::prelude::*;
use vstd::string::*;

use crate::json::{Fields, Json, JsonView, Record};
use crate::payload::opt_text;
use crate::publisher_event::{
    car_json, car_view, leader_and_follower, leader_follower_indices, resolve_car, resolved,
    roster_view, text_or_null,
};
use crate::race_event::RaceEvent;
use crate::session_info::{CarRef, CarRefView, SessionRoster};
use crate::telemetry_frame::TelemetryFrame;
use crate::text::decimal_text;

verus! {

/// The part that the subject of an event plays in it.
#[derive(Clone, Copy, Debug, PartialEq, Eq, Structural)]
pub enum SubjectRole {
    /// The car that is closing, catching or passing.
    Attacker,
    /// The car that is being caught, held up or passed.
    Defender,
    /// The rig's own driving.
    Driver,
    /// A car in an incident.
    Incident,
    /// The car that brought out a flag.
    Trigger,
    /// The rig itself; its own car is named.
    Rig,
    /// The whole session; no car is named.
    Session,
}

/// A role on the wire.
pub open spec fn role_name(role: SubjectRole) -> &'static str {
    match role {
        SubjectRole::Attacker => "ATTACKER",
        SubjectRole::Defender => "DEFENDER",
        SubjectRole::Driver => "DRIVER",
        SubjectRole::Incident => "INCIDENT",
        SubjectRole::Trigger => "TRIGGER",
        SubjectRole::Rig => "RIG",
        SubjectRole::Session => "SESSION",
    }
}

impl SubjectRole {
    /// The role on the wire.
    pub fn name(self) -> (r: &'static str)
        ensures
            r == role_name(self),
    {
        match self {
            SubjectRole::Attacker => "ATTACKER",
            SubjectRole::Defender => "DEFENDER",
            SubjectRole::Driver => "DRIVER",
            SubjectRole::Incident => "INCIDENT",
            SubjectRole::Trigger => "TRIGGER",
            SubjectRole::Rig => "RIG",
            SubjectRole::Session => "SESSION",
        }
    }
}

/// The cars of an event. The subject is one of the two where there are two.
#[derive(Clone, Copy, Debug, PartialEq, Eq, Structural)]
pub struct Cast {
    pub role: SubjectRole,
    pub subject: Option<u8>,
    pub attacker: Option<u8>,
    pub defender: Option<u8>,
}

/// One car attacks another and is the subject.
pub open spec fn attack(attacker: u8, defender: Option<u8>) -> Cast {
    Cast {
        role: SubjectRole::Attacker,
        subject: Some(attacker),
        attacker: Some(attacker),
        defender,
    }
}

/// One car defends against another and is the subject.
pub open spec fn defence(defender: u8, attacker: u8) -> Cast {
    Cast {
        role: SubjectRole::Defender,
        subject: Some(defender),
        attacker: Some(attacker),
        defender: Some(defender),
    }
}

/// One car alone is the subject.
pub open spec fn alone(role: SubjectRole, car: u8) -> Cast {
    Cast { role, subject: Some(car), attacker: None, defender: None }
}

/// No car is the subject.
pub open spec fn whole_session() -> Cast {
    Cast { role: SubjectRole::Session, subject: None, attacker: None, defender: None }
}

/// One car alone is the subject where it is known.
pub open spec fn alone_if_known(role: SubjectRole, car: Option<u8>) -> Cast {
    match car {
        Some(idx) => alone(role, idx),
        None => whole_session(),
    }
}

/// The car that an incident is about: the one that it began with, else the first
/// that is in it.
pub open spec fn incident_car(primary: Option<u8>, cars: Seq<u8>) -> Option<u8> {
    match primary {
        Some(idx) => Some(idx),
        None => if cars.len() > 0 {
            Some(cars[0])
        } else {
            None
        },
    }
}

/// The cars of an event. In a battle the car behind attacks.
pub open spec fn cast_of(event: RaceEvent, frame: TelemetryFrame) -> Cast {
    let own = frame.player_car_idx;
    match event {
        RaceEvent::BattleEngaged { player_car_idx, opponent_car_idx, .. } => {
            let (ahead, behind) = leader_and_follower(frame, player_car_idx, opponent_car_idx);
            attack(behind, Some(ahead))
        },
        RaceEvent::BattleBroken { player_car_idx, opponent_car_idx, .. } => {
            let (ahead, behind) = leader_and_follower(frame, player_car_idx, opponent_car_idx);
            attack(behind, Some(ahead))
        },
        RaceEvent::BattleClosing { player_car_idx, opponent_car_idx, .. } => {
            let (ahead, behind) = leader_and_follower(frame, player_car_idx, opponent_car_idx);
            attack(behind, Some(ahead))
        },
        RaceEvent::HorizonClosing { attacker_car_idx, defender_car_idx, .. } => attack(
            attacker_car_idx,
            Some(defender_car_idx),
        ),
        RaceEvent::HorizonClosingResolved { attacker_car_idx, defender_car_idx, .. } => attack(
            attacker_car_idx,
            Some(defender_car_idx),
        ),
        RaceEvent::TrafficIntercept { leader_car_idx, traffic_car_idx, .. } => attack(
            leader_car_idx,
            Some(traffic_car_idx),
        ),
        RaceEvent::TrafficCompressionZone { battle_attacker_idx, battle_defender_idx, .. } => {
            attack(battle_attacker_idx, Some(battle_defender_idx))
        },
        RaceEvent::Overtake { car_idx, overtaken_car_idx, .. } => attack(
            car_idx,
            overtaken_car_idx,
        ),
        RaceEvent::OvertakeForLead { car_idx, overtaken_car_idx, .. } => attack(
            car_idx,
            overtaken_car_idx,
        ),
        RaceEvent::VulnerabilityAlert { defender_idx, attacker_idx, .. } => defence(
            defender_idx,
            attacker_idx,
        ),
        RaceEvent::VulnerabilityResolved { defender_idx, attacker_idx, .. } => defence(
            defender_idx,
            attacker_idx,
        ),
        RaceEvent::IncidentAlert { car_idx, .. } => alone(SubjectRole::Incident, car_idx),
        RaceEvent::IncidentCluster { primary_car_idx, car_idxs, .. } => alone_if_known(
            SubjectRole::Incident,
            incident_car(primary_car_idx, car_idxs@),
        ),
        RaceEvent::FlagYellowLocal { trigger_car_idx, .. } => alone_if_known(
            SubjectRole::Trigger,
            trigger_car_idx,
        ),
        RaceEvent::IncidentClusterResolved { .. } => whole_session(),
        RaceEvent::RaceGreen { .. } => whole_session(),
        RaceEvent::RaceCheckered { .. } => whole_session(),
        RaceEvent::FlagYellowFullCourse { .. } => whole_session(),
        RaceEvent::SessionReset { .. } => whole_session(),
        RaceEvent::PublisherHello { .. } => alone(SubjectRole::Rig, own),
        RaceEvent::PublisherGoodbye { .. } => alone(SubjectRole::Rig, own),
        RaceEvent::PublisherHeartbeat { .. } => alone(SubjectRole::Rig, own),
        RaceEvent::IracingConnected { .. } => alone(SubjectRole::Rig, own),
        RaceEvent::IracingDisconnected { .. } => alone(SubjectRole::Rig, own),
        RaceEvent::BroadcastControlRequested { .. } => alone(SubjectRole::Rig, own),
        _ => alone(SubjectRole::Driver, own),
    }
}

fn attacking(attacker: u8, defender: Option<u8>) -> (r: Cast)
    ensures
        r == attack(attacker, defender),
{
    Cast {
        role: SubjectRole::Attacker,
        subject: Some(attacker),
        attacker: Some(attacker),
        defender,
    }
}

fn defending(defender: u8, attacker: u8) -> (r: Cast)
    ensures
        r == defence(defender, attacker),
{
    Cast {
        role: SubjectRole::Defender,
        subject: Some(defender),
        attacker: Some(attacker),
        defender: Some(defender),
    }
}

fn single(role: SubjectRole, car: Option<u8>) -> (r: Cast)
    ensures
        r == alone_if_known(role, car),
{
    match car {
        Some(_) => Cast { role, subject: car, attacker: None, defender: None },
        None => Cast {
            role: SubjectRole::Session,
            subject: None,
            attacker: None,
            defender: None,
        },
    }
}

/// The car behind attacks the car ahead.
fn battling(frame: &TelemetryFrame, player_idx: u8, opponent_idx: u8) -> (r: Cast)
    ensures
        r == attack(
            leader_and_follower(*frame, player_idx, opponent_idx).1,
            Some(leader_and_follower(*frame, player_idx, opponent_idx).0),
        ),
{
    let (ahead, behind): (u8, u8) = leader_follower_indices(frame, player_idx, opponent_idx);
    attacking(behind, Some(ahead))
}

/// The cars of an event.
pub fn cast(event: &RaceEvent, frame: &TelemetryFrame) -> (r: Cast)
    ensures
        r == cast_of(*event, *frame),
{
    let own: u8 = frame.player_car_idx;
    match event {
        RaceEvent::BattleEngaged { player_car_idx, opponent_car_idx, .. } => battling(
            frame,
            *player_car_idx,
            *opponent_car_idx,
        ),
        RaceEvent::BattleBroken { player_car_idx, opponent_car_idx, .. } => battling(
            frame,
            *player_car_idx,
            *opponent_car_idx,
        ),
        RaceEvent::BattleClosing { player_car_idx, opponent_car_idx, .. } => battling(
            frame,
            *player_car_idx,
            *opponent_car_idx,
        ),
        RaceEvent::HorizonClosing { attacker_car_idx, defender_car_idx, .. } => attacking(
            *attacker_car_idx,
            Some(*defender_car_idx),
        ),
        RaceEvent::HorizonClosingResolved { attacker_car_idx, defender_car_idx, .. } => attacking(
            *attacker_car_idx,
            Some(*defender_car_idx),
        ),
        RaceEvent::TrafficIntercept { leader_car_idx, traffic_car_idx, .. } => attacking(
            *leader_car_idx,
            Some(*traffic_car_idx),
        ),
        RaceEvent::TrafficCompressionZone { battle_attacker_idx, battle_defender_idx, .. } => {
            attacking(*battle_attacker_idx, Some(*battle_defender_idx))
        },
        RaceEvent::Overtake { car_idx, overtaken_car_idx, .. } => attacking(
            *car_idx,
            *overtaken_car_idx,
        ),
        RaceEvent::OvertakeForLead { car_idx, overtaken_car_idx, .. } => attacking(
            *car_idx,
            *overtaken_car_idx,
        ),
        RaceEvent::VulnerabilityAlert { defender_idx, attacker_idx, .. } => defending(
            *defender_idx,
            *attacker_idx,
        ),
        RaceEvent::VulnerabilityResolved { defender_idx, attacker_idx, .. } => defending(
            *defender_idx,
            *attacker_idx,
        ),
        RaceEvent::IncidentAlert { car_idx, .. } => single(SubjectRole::Incident, Some(*car_idx)),
        RaceEvent::IncidentCluster { primary_car_idx, car_idxs, .. } => {
            let car: Option<u8> = match *primary_car_idx {
                Some(idx) => Some(idx),
                None => if car_idxs.len() > 0 {
                    Some(car_idxs[0])
                } else {
                    None
                },
            };
            single(SubjectRole::Incident, car)
        },
        RaceEvent::FlagYellowLocal { trigger_car_idx, .. } => single(
            SubjectRole::Trigger,
            *trigger_car_idx,
        ),
        RaceEvent::IncidentClusterResolved { .. }
        | RaceEvent::RaceGreen { .. }
        | RaceEvent::RaceCheckered { .. }
        | RaceEvent::FlagYellowFullCourse { .. }
        | RaceEvent::SessionReset { .. } => single(SubjectRole::Session, None),
        RaceEvent::PublisherHello { .. }
        | RaceEvent::PublisherGoodbye { .. }
        | RaceEvent::PublisherHeartbeat { .. }
        | RaceEvent::IracingConnected { .. }
        | RaceEvent::IracingDisconnected { .. }
        | RaceEvent::BroadcastControlRequested { .. } => single(SubjectRole::Rig, Some(own)),
        _ => single(SubjectRole::Driver, Some(own)),
    }
}

/// What a driver is known by across sessions: the number of the account, else the
/// name in lower case; nothing where neither is known.
pub open spec fn driver_id_of(c: CarRefView) -> Option<Seq<char>> {
    match c.user_id {
        Some(id) => Some("user:"@ + crate::text::decimal(id as nat)),
        None => if c.driver_name.len() > 0 {
            Some("name:"@ + crate::text::lower_text(c.driver_name))
        } else {
            None
        },
    }
}

/// What a driver is known by across sessions.
pub fn driver_id(c: &CarRef) -> (r: Option<String>)
    ensures
        crate::session_info::opt_view(r) == driver_id_of(c@),
{
    match c.user_id {
        Some(id) => {
            let mut s: String = "user:".to_owned();
            s.append(decimal_text(id as u64).as_str());
            Some(s)
        },
        None => if c.driver_name.as_str().unicode_len() > 0 {
            let mut s: String = "name:".to_owned();
            s.append(c.driver_name.as_str().to_lowercase().as_str());
            Some(s)
        } else {
            None
        },
    }
}

/// A rig and the car that it drives.
pub open spec fn publisher_view(rig_id: Seq<char>, car: CarRefView) -> JsonView {
    JsonView::Object(
        seq![
            ("rigId"@, JsonView::Text(rig_id)),
            ("rigLabel"@, JsonView::Text(rig_id)),
            ("carIdx"@, JsonView::Int(car.car_idx as int)),
            ("carNumber"@, JsonView::Text(car.car_number)),
            ("driverId"@, text_or_null(driver_id_of(car))),
            ("driverName"@, JsonView::Text(car.driver_name)),
        ],
    )
}

/// A rig and the car that it drives.
pub fn publisher_json(rig_id: &str, car: &CarRef) -> (r: Json)
    ensures
        r@ == publisher_view(rig_id@, car@),
{
    let mut f: Record = Record::new();
    f.push("rigId", Json::Text(rig_id.to_owned()));
    f.push("rigLabel", Json::Text(rig_id.to_owned()));
    f.push("carIdx", Json::Int(car.car_idx as i128));
    f.push("carNumber", Json::Text(car.car_number.clone()));
    f.push("driverId", opt_text(&driver_id(car)));
    f.push("driverName", Json::Text(car.driver_name.clone()));
    assert(f@ =~= publisher_view(rig_id@, car@)->Object_0);
    f.into_json()
}

/// A car in its part of an event.
pub open spec fn subject_view(role: SubjectRole, car: CarRefView) -> JsonView {
    JsonView::Object(
        seq![
            ("role"@, JsonView::Text(role_name(role)@)),
            ("carIdx"@, JsonView::Int(car.car_idx as int)),
            ("carNumber"@, JsonView::Text(car.car_number)),
            ("driverId"@, text_or_null(driver_id_of(car))),
            ("driverName"@, JsonView::Text(car.driver_name)),
            ("car"@, car_view(car)),
        ],
    )
}

/// A car in its part of an event.
pub fn subject_json(role: SubjectRole, car: &CarRef) -> (r: Json)
    ensures
        r@ == subject_view(role, car@),
{
    let mut f: Record = Record::new();
    f.push("role", Json::Text(role.name().to_owned()));
    f.push("carIdx", Json::Int(car.car_idx as i128));
    f.push("carNumber", Json::Text(car.car_number.clone()));
    f.push("driverId", opt_text(&driver_id(car)));
    f.push("driverName", Json::Text(car.driver_name.clone()));
    f.push("car", car_json(car));
    assert(f@ =~= subject_view(role, car@)->Object_0);
    f.into_json()
}

/// The fields that name the rig and its car.
pub open spec fn publisher_fields(rig_id: Seq<char>, car: CarRefView) -> Fields {
    seq![
        ("publisher"@, publisher_view(rig_id, car)),
        ("rigId"@, JsonView::Text(rig_id)),
        ("rigLabel"@, JsonView::Text(rig_id)),
        ("publisherCarIdx"@, JsonView::Int(car.car_idx as int)),
        ("publisherCarNumber"@, JsonView::Text(car.car_number)),
        ("publisherDriverId"@, text_or_null(driver_id_of(car))),
        ("publisherDriverName"@, JsonView::Text(car.driver_name)),
    ]
}

fn publisher_record(rig_id: &str, car: &CarRef) -> (f: Record)
    ensures
        f@ == publisher_fields(rig_id@, car@),
{
    let mut f: Record = Record::new();
    f.push("publisher", publisher_json(rig_id, car));
    f.push("rigId", Json::Text(rig_id.to_owned()));
    f.push("rigLabel", Json::Text(rig_id.to_owned()));
    f.push("publisherCarIdx", Json::Int(car.car_idx as i128));
    f.push("publisherCarNumber", Json::Text(car.car_number.clone()));
    f.push("publisherDriverId", opt_text(&driver_id(car)));
    f.push("publisherDriverName", Json::Text(car.driver_name.clone()));
    assert(f@ =~= publisher_fields(rig_id@, car@));
    f
}

/// The fields that name the subject; of a session as a whole, that there is none.
pub open spec fn subject_fields(cast: Cast, roster: Map<u8, CarRefView>) -> Fields {
    match cast.subject {
        Some(idx) => {
            let car = resolved(idx, roster);
            seq![
                ("subjectRole"@, JsonView::Text(role_name(cast.role)@)),
                ("subject"@, subject_view(cast.role, car)),
                ("subjectCarIdx"@, JsonView::Int(car.car_idx as int)),
                ("subjectCarNumber"@, JsonView::Text(car.car_number)),
                ("subjectDriverId"@, text_or_null(driver_id_of(car))),
            ]
        },
        None => seq![
            ("subjectRole"@, JsonView::Text(role_name(cast.role)@)),
            ("subjectCarIdx"@, JsonView::Null),
            ("subjectCarNumber"@, JsonView::Null),
            ("subjectDriverId"@, JsonView::Null),
        ],
    }
}

fn subject_record(cast: Cast, roster: Option<&SessionRoster>) -> (f: Record)
    ensures
        f@ == subject_fields(cast, roster_view(roster)),
{
    let mut f: Record = Record::new();
    f.push("subjectRole", Json::Text(cast.role.name().to_owned()));
    match cast.subject {
        Some(idx) => {
            let car: CarRef = resolve_car(idx, roster);
            f.push("subject", subject_json(cast.role, &car));
            f.push("subjectCarIdx", Json::Int(car.car_idx as i128));
            f.push("subjectCarNumber", Json::Text(car.car_number.clone()));
            f.push("subjectDriverId", opt_text(&driver_id(&car)));
        },
        None => {
            f.push("subjectCarIdx", Json::Null);
            f.push("subjectCarNumber", Json::Null);
            f.push("subjectDriverId", Json::Null);
        },
    }
    assert(f@ =~= subject_fields(cast, roster_view(roster)));
    f
}

/// The fields that name an attacker.
pub open spec fn attacker_fields(idx: Option<u8>, roster: Map<u8, CarRefView>) -> Fields {
    match idx {
        Some(i) => {
            let car = resolved(i, roster);
            seq![
                ("attackerCarIdx"@, JsonView::Int(car.car_idx as int)),
                ("attackerCarNumber"@, JsonView::Text(car.car_number)),
                ("attackerDriverId"@, text_or_null(driver_id_of(car))),
                ("attackerCar"@, car_view(car)),
            ]
        },
        None => Seq::empty(),
    }
}

fn attacker_record(idx: Option<u8>, roster: Option<&SessionRoster>) -> (f: Record)
    ensures
        f@ == attacker_fields(idx, roster_view(roster)),
{
    let mut f: Record = Record::new();
    if let Some(i) = idx {
        let car: CarRef = resolve_car(i, roster);
        f.push("attackerCarIdx", Json::Int(car.car_idx as i128));
        f.push("attackerCarNumber", Json::Text(car.car_number.clone()));
        f.push("attackerDriverId", opt_text(&driver_id(&car)));
        f.push("attackerCar", car_json(&car));
    }
    assert(f@ =~= attacker_fields(idx, roster_view(roster)));
    f
}

/// The fields that name a defender.
pub open spec fn defender_fields(idx: Option<u8>, roster: Map<u8, CarRefView>) -> Fields {
    match idx {
        Some(i) => {
            let car = resolved(i, roster);
            seq![
                ("defenderCarIdx"@, JsonView::Int(car.car_idx as int)),
                ("defenderCarNumber"@, JsonView::Text(car.car_number)),
                ("defenderDriverId"@, text_or_null(driver_id_of(car))),
                ("defenderCar"@, car_view(car)),
            ]
        },
        None => Seq::empty(),
    }
}

fn defender_record(idx: Option<u8>, roster: Option<&SessionRoster>) -> (f: Record)
    ensures
        f@ == defender_fields(idx, roster_view(roster)),
{
    let mut f: Record = Record::new();
    if let Some(i) = idx {
        let car: CarRef = resolve_car(i, roster);
        f.push("defenderCarIdx", Json::Int(car.car_idx as i128));
        f.push("defenderCarNumber", Json::Text(car.car_number.clone()));
        f.push("defenderDriverId", opt_text(&driver_id(&car)));
        f.push("defenderCar", car_json(&car));
    }
    assert(f@ =~= defender_fields(idx, roster_view(roster)));
    f
}

/// The fields of an event together with those that say who it comes from and who
/// it is about.
pub open spec fn identified(
    f: Fields,
    event: RaceEvent,
    frame: TelemetryFrame,
    roster: Map<u8, CarRefView>,
    rig_id: Seq<char>,
) -> Fields {
    let cast = cast_of(event, frame);
    let own = resolved(frame.player_car_idx, roster);
    let a = crate::json::with_all(f, publisher_fields(rig_id, own));
    let b = crate::json::with_all(a, subject_fields(cast, roster));
    let c = crate::json::with_all(b, attacker_fields(cast.attacker, roster));
    crate::json::with_all(c, defender_fields(cast.defender, roster))
}

/// Adds who an event comes from and who it is about.
pub fn identify(
    f: &mut Record,
    event: &RaceEvent,
    frame: &TelemetryFrame,
    roster: Option<&SessionRoster>,
    rig_id: &str,
)
    ensures
        final(f)@ == identified(old(f)@, *event, *frame, roster_view(roster), rig_id@),
{
    let who: Cast = cast(event, frame);
    let own: CarRef = resolve_car(frame.player_car_idx, roster);
    f.set_all(&publisher_record(rig_id, &own));
    f.set_all(&subject_record(who, roster));
    f.set_all(&attacker_record(who.attacker, roster));
    f.set_all(&defender_record(who.defender, roster));
}

/// A session-wide event names no car; every other one names its subject.
pub proof fn only_the_session_has_no_subject(event: RaceEvent, frame: TelemetryFrame)
    ensures
        cast_of(event, frame).subject is None <==> cast_of(event, frame).role
            == SubjectRole::Session,
{
}

/// An attacker is the subject of its event, and so is a defender where the event
/// is about the defence.
pub proof fn the_subject_plays_its_part(event: RaceEvent, frame: TelemetryFrame)
    ensures
        cast_of(event, frame).role == SubjectRole::Attacker ==> cast_of(event, frame).subject
            == cast_of(event, frame).attacker,
        cast_of(event, frame).role == SubjectRole::Defender ==> cast_of(event, frame).subject
            == cast_of(event, frame).defender,
{
}

/// In a battle the car with the worse position attacks and is the subject, and the one
/// with the better position defends.
pub proof fn the_car_behind_attacks(event: RaceEvent, frame: TelemetryFrame, own: u8, other: u8)
    requires
        (event matches RaceEvent::BattleEngaged { player_car_idx, opponent_car_idx, .. }
            && player_car_idx == own && opponent_car_idx == other) || (
        event matches RaceEvent::BattleBroken { player_car_idx, opponent_car_idx, .. }
            && player_car_idx == own && opponent_car_idx == other) || (
        event matches RaceEvent::BattleClosing { player_car_idx, opponent_car_idx, .. }
            && player_car_idx == own && opponent_car_idx == other),
        crate::telemetry_frame::position_of(frame, own as int) > 0,
        crate::telemetry_frame::position_of(frame, other as int) > 0,
        crate::telemetry_frame::position_of(frame, own as int)
            != crate::telemetry_frame::position_of(frame, other as int),
    ensures
        ({
            let c = cast_of(event, frame);
            let own_leads = crate::telemetry_frame::position_of(frame, own as int)
                < crate::telemetry_frame::position_of(frame, other as int);
            &&& c.role == SubjectRole::Attacker
            &&& own_leads ==> c.attacker == Some(other) && c.defender == Some(own) && c.subject
                == Some(other)
            &&& !own_leads ==> c.attacker == Some(own) && c.defender == Some(other) && c.subject
                == Some(own)
        }),
{
}

/// In an overtake the car that wins the position attacks the one that loses it, and an
/// alert is about the car that it names.
pub proof fn the_overtaking_car_attacks(event: RaceEvent, frame: TelemetryFrame)
    ensures
        event matches RaceEvent::Overtake { car_idx, overtaken_car_idx, .. } ==> cast_of(
            event,
            frame,
        ) == (Cast {
            role: SubjectRole::Attacker,
            subject: Some(car_idx),
            attacker: Some(car_idx),
            defender: overtaken_car_idx,
        }),
        event matches RaceEvent::OvertakeForLead { car_idx, overtaken_car_idx, .. } ==> cast_of(
            event,
            frame,
        ) == (Cast {
            role: SubjectRole::Attacker,
            subject: Some(car_idx),
            attacker: Some(car_idx),
            defender: overtaken_car_idx,
        }),
        event matches RaceEvent::IncidentAlert { car_idx, .. } ==> cast_of(event, frame) == (
        Cast {
            role: SubjectRole::Incident,
            subject: Some(car_idx),
            attacker: None,
            defender: None,
        }),
{
}

/// A driver with an account is known by its number, one without by the name in lower case,
/// and one without either by nothing; two accounts are never taken for one.
pub proof fn a_driver_is_known_by_the_account(a: CarRefView, b: CarRefView)
    ensures
        a.user_id matches Some(id) ==> driver_id_of(a) == Some(
            "user:"@ + crate::text::decimal(id as nat),
        ),
        a.user_id is None && a.driver_name.len() > 0 ==> driver_id_of(a) == Some(
            "name:"@ + crate::text::lower_text(a.driver_name),
        ),
        a.user_id is None && a.driver_name.len() == 0 ==> driver_id_of(a) is None,
        a.user_id is Some && b.user_id is Some && driver_id_of(a) == driver_id_of(b)
            ==> a.user_id == b.user_id,
{
    if a.user_id is Some && b.user_id is Some && driver_id_of(a) == driver_id_of(b) {
        let x = a.user_id->0;
        let y = b.user_id->0;
        let head = "user:"@;
        let p = crate::text::decimal(x as nat);
        let q = crate::text::decimal(y as nat);
        assert(head + p == head + q);
        assert((head + p).skip(head.len() as int) =~= p);
        assert((head + q).skip(head.len() as int) =~= q);
        crate::text::lemma_decimal_digits(x as nat);
        crate::text::lemma_decimal_digits(y as nat);
    }
}

/// An event is of the rig's scope exactly where the rig is its subject, and one of the
/// session's scope has no subject; every other one is of a car's scope.
pub proof fn the_scope_goes_with_the_subject(event: RaceEvent, frame: TelemetryFrame)
    ensures
        ({
            let scope = crate::race_event::scope_of(crate::race_event::kind_of(event));
            let role = cast_of(event, frame).role;
            &&& scope == crate::race_event::EventScope::RigScoped <==> role == SubjectRole::Rig
            &&& scope == crate::race_event::EventScope::SessionScoped ==> role
                == SubjectRole::Session
            &&& role == SubjectRole::Attacker || role == SubjectRole::Defender || role
                == SubjectRole::Driver || role == SubjectRole::Incident || role
                == SubjectRole::Trigger ==> scope == crate::race_event::EventScope::CarScoped
            &&& event is RaceGreen || event is RaceCheckered || event is FlagYellowFullCourse
                || event is SessionReset ==> scope
                == crate::race_event::EventScope::SessionScoped
        }),
{
}

} // verus!
