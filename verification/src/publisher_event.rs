//! `PublisherEvent` envelope — wire format for `/api/publisher/v2/ingest`.
//!
//! Every [`RaceEvent`] emitted by the engine is wrapped in a [`PublisherEvent`]
//! before it is sent to Race Control. The envelope carries identity, timing, and
//! session context that the engine itself does not need.

use vstd::prelude::*;
use vstd::string::*;

use crate::fixed::{minus, quotient, round_to, Micro};
use crate::identity::{
    cast, cast_of, identified, identify, publisher_json, publisher_view, subject_json,
    subject_view, SubjectRole,
};
use crate::json::{Fields, Json, JsonView, Record};
use crate::payload::{fields_of, flag_scope_text, opt_decimal, opt_i32, opt_u32};
use crate::race_event::{EventScope, FlagScope, RaceEvent};
use crate::session_info::{CarRef, CarRefView, SessionRoster};
use crate::telemetry_frame::TelemetryFrame;
use crate::text::{decimal_text, integer_text, push_decimal, snake_to_camel};
use crate::utc::utc_from_ms;

verus! {

/// Revision of the envelope and the payload.
pub const PAYLOAD_CONTRACT_VERSION: u32 = 2;

/// Supplementary session context attached to every envelope.
#[derive(Debug, Clone, Copy, PartialEq, Eq, Structural)]
pub struct PublisherEventContext {
    /// Highest value in `CarIdxLapCompleted` — the leader's completed laps.
    pub leader_lap: Option<i32>,
    pub session_state: Option<i32>,
    pub session_flags: Option<u32>,
    pub sub_session_id: Option<i64>,
}

/// The car that an event is about and its part in it.
#[derive(Debug)]
pub struct EventSubject {
    pub role: SubjectRole,
    pub car: CarRef,
}

/// What an [`EventSubject`] holds.
#[verifier::ext_equal]
pub struct SubjectView {
    pub role: SubjectRole,
    pub car: CarRefView,
}

impl View for EventSubject {
    type V = SubjectView;

    open spec fn view(&self) -> SubjectView {
        SubjectView { role: self.role, car: self.car@ }
    }
}

/// A subject that may be absent.
pub open spec fn opt_subject_view(s: Option<EventSubject>) -> Option<SubjectView> {
    match s {
        Some(x) => Some(x@),
        None => None,
    }
}

/// Wire envelope — serialises to the Race Control API schema exactly.
#[derive(Debug)]
pub struct PublisherEvent {
    /// UUID v4 — idempotency key; unique per event emission.
    pub id: String,
    /// Idempotency key that also says where in the session the event stands.
    pub event_key: String,
    /// Counts the envelopes of one run of the publisher.
    pub sequence: u64,
    /// `timestamp` as text.
    pub emitted_at: String,
    /// UUID v4 of the run of the publisher.
    pub publisher_run_id: String,
    pub contract_version: u32,
    pub race_session_id: String,
    pub rig_id: String,
    /// Event type on the wire (e.g. `"BATTLE_CLOSING"`).
    pub event_type: String,
    /// Wall-clock milliseconds since Unix epoch at the moment of construction.
    pub timestamp: i64,
    /// iRacing `SessionTime` in seconds.
    pub session_time: Micro,
    /// iRacing `SessionTick` counter.
    pub session_tick: i64,
    pub scope: EventScope,
    /// The rig's own car.
    pub publisher_car: CarRef,
    /// The car that the event is about, none for the session as a whole.
    pub subject: Option<EventSubject>,
    /// Car identity resolved from the session roster.
    pub car: CarRef,
    /// Event-specific fields.
    pub payload: Json,
    pub context: Option<PublisherEventContext>,
}

/// What a [`PublisherEvent`] holds.
#[verifier::ext_equal]
pub struct EnvelopeView {
    pub id: Seq<char>,
    pub event_key: Seq<char>,
    pub sequence: u64,
    pub emitted_at: Seq<char>,
    pub publisher_run_id: Seq<char>,
    pub contract_version: u32,
    pub race_session_id: Seq<char>,
    pub rig_id: Seq<char>,
    pub event_type: Seq<char>,
    pub timestamp: i64,
    pub session_time: Micro,
    pub session_tick: i64,
    pub scope: EventScope,
    pub publisher_car: CarRefView,
    pub subject: Option<SubjectView>,
    pub car: CarRefView,
    pub payload: JsonView,
    pub context: Option<PublisherEventContext>,
}

impl View for PublisherEvent {
    type V = EnvelopeView;

    open spec fn view(&self) -> EnvelopeView {
        EnvelopeView {
            id: self.id@,
            event_key: self.event_key@,
            sequence: self.sequence,
            emitted_at: self.emitted_at@,
            publisher_run_id: self.publisher_run_id@,
            contract_version: self.contract_version,
            race_session_id: self.race_session_id@,
            rig_id: self.rig_id@,
            event_type: self.event_type@,
            timestamp: self.timestamp,
            session_time: self.session_time,
            session_tick: self.session_tick,
            scope: self.scope,
            publisher_car: self.publisher_car@,
            subject: opt_subject_view(self.subject),
            car: self.car@,
            payload: self.payload@,
            context: self.context,
        }
    }
}

/// The cars that a roster knows, none where there is no roster.
pub open spec fn roster_view(roster: Option<&SessionRoster>) -> Map<u8, CarRefView> {
    match roster {
        Some(r) => r@,
        None => Map::empty(),
    }
}

/// A car as the roster has it, or a stub with its index for a number.
pub open spec fn resolved(car_idx: u8, roster: Map<u8, CarRefView>) -> CarRefView {
    if roster.contains_key(car_idx) {
        roster[car_idx]
    } else {
        CarRefView {
            car_idx,
            car_number: crate::text::decimal(car_idx as nat),
            driver_name: Seq::empty(),
            team_name: None,
            car_class_short_name: None,
            car_class_id: None,
            user_id: None,
            irating: None,
            lic_string: None,
            flair_name: None,
        }
    }
}

/// Resolve a [`CarRef`] from the roster.
///
/// Falls back to a minimal stub when the roster is unavailable or the slot
/// is not yet populated.
pub fn resolve_car(car_idx: u8, roster: Option<&SessionRoster>) -> (r: CarRef)
    ensures
        r@ == resolved(car_idx, roster_view(roster)),
{
    if let Some(known) = roster {
        if let Some(car) = known.lookup(car_idx) {
            return car.clone();
        }
    }
    CarRef {
        car_idx,
        car_number: decimal_text(car_idx as u64),
        driver_name: String::new(),
        team_name: None,
        car_class_short_name: None,
        car_class_id: None,
        user_id: None,
        irating: None,
        lic_string: None,
        flair_name: None,
    }
}

/// A text that may be absent.
pub open spec fn text_or_null(t: Option<Seq<char>>) -> JsonView {
    match t {
        Some(s) => JsonView::Text(s),
        None => JsonView::Null,
    }
}

/// A car as an object.
pub open spec fn car_view(c: CarRefView) -> JsonView {
    JsonView::Object(
        seq![
            ("carIdx"@, JsonView::Int(c.car_idx as int)),
            ("carNumber"@, JsonView::Text(c.car_number)),
            ("driverName"@, JsonView::Text(c.driver_name)),
            ("teamName"@, text_or_null(c.team_name)),
            ("carClassShortName"@, text_or_null(c.car_class_short_name)),
            ("carClassId"@, crate::payload::opt_u32_view(c.car_class_id)),
            ("userId"@, crate::payload::opt_u32_view(c.user_id)),
            ("irating"@, crate::payload::opt_u32_view(c.irating)),
            ("licString"@, text_or_null(c.lic_string)),
            ("flairName"@, text_or_null(c.flair_name)),
        ],
    )
}

/// A car as an object.
pub fn car_json(c: &CarRef) -> (r: Json)
    ensures
        r@ == car_view(c@),
{
    let mut f: Record = Record::new();
    f.push("carIdx", Json::Int(c.car_idx as i128));
    f.push("carNumber", Json::Text(c.car_number.clone()));
    f.push("driverName", Json::Text(c.driver_name.clone()));
    f.push("teamName", crate::payload::opt_text(&c.team_name));
    f.push("carClassShortName", crate::payload::opt_text(&c.car_class_short_name));
    f.push("carClassId", opt_u32(c.car_class_id));
    f.push("userId", opt_u32(c.user_id));
    f.push("irating", opt_u32(c.irating));
    f.push("licString", crate::payload::opt_text(&c.lic_string));
    f.push("flairName", crate::payload::opt_text(&c.flair_name));
    assert(f@ =~= car_view(c@)->Object_0);
    f.into_json()
}

/// The car of an index as an object.
pub open spec fn car_ref(car_idx: u8, roster: Map<u8, CarRefView>) -> JsonView {
    car_view(resolved(car_idx, roster))
}

fn car_object(car_idx: u8, roster: Option<&SessionRoster>) -> (r: Json)
    ensures
        r@ == car_ref(car_idx, roster_view(roster)),
{
    car_json(&resolve_car(car_idx, roster))
}

/// The primary car of an event: the opponent in a battle, the player otherwise.
pub open spec fn primary_of(event: RaceEvent, player_car_idx: u8) -> u8 {
    match event {
        RaceEvent::BattleEngaged { opponent_car_idx, .. } => opponent_car_idx,
        RaceEvent::BattleBroken { opponent_car_idx, .. } => opponent_car_idx,
        RaceEvent::BattleClosing { opponent_car_idx, .. } => opponent_car_idx,
        _ => player_car_idx,
    }
}

/// Return the primary `car_idx` for a given event.
pub fn primary_car_idx(event: &RaceEvent, player_car_idx: u8) -> (r: u8)
    ensures
        r == primary_of(*event, player_car_idx),
{
    match event {
        RaceEvent::BattleEngaged { opponent_car_idx, .. } => *opponent_car_idx,
        RaceEvent::BattleBroken { opponent_car_idx, .. } => *opponent_car_idx,
        RaceEvent::BattleClosing { opponent_car_idx, .. } => *opponent_car_idx,
        _ => player_car_idx,
    }
}

/// Who leads and who follows: the opponent leads where both hold a race position
/// and theirs is the better one.
pub open spec fn leader_and_follower(
    frame: TelemetryFrame,
    player_idx: u8,
    opponent_idx: u8,
) -> (u8, u8) {
    let p = crate::telemetry_frame::position_of(frame, player_idx as int);
    let o = crate::telemetry_frame::position_of(frame, opponent_idx as int);
    if p > 0 && o > 0 && o < p {
        (opponent_idx, player_idx)
    } else {
        (player_idx, opponent_idx)
    }
}

/// Who leads and who follows.
pub fn leader_follower_indices(frame: &TelemetryFrame, player_idx: u8, opponent_idx: u8) -> (r: (
    u8,
    u8,
))
    ensures
        r == leader_and_follower(*frame, player_idx, opponent_idx),
{
    let p: u8 = frame.position(player_idx);
    let o: u8 = frame.position(opponent_idx);
    if p > 0 && o > 0 && o < p {
        (opponent_idx, player_idx)
    } else {
        (player_idx, opponent_idx)
    }
}

/// A gap, null where it stands at the end of the range: no car is that far away.
pub open spec fn gap_or_null(gap: Micro) -> JsonView {
    if gap == i64::MAX {
        JsonView::Null
    } else {
        JsonView::Decimal(gap)
    }
}

fn sanitize_gap(gap: Micro) -> (r: Json)
    ensures
        r@ == gap_or_null(gap),
{
    if gap == i64::MAX {
        Json::Null
    } else {
        Json::Decimal(gap)
    }
}

/// Tenths of a percent, rounded to the nearest.
pub open spec fn tenths(pct: Micro) -> int {
    crate::fixed::rounded(pct as int, 1000)
}

/// A place on the lap as a percentage with one decimal; before the line is the
/// line.
pub open spec fn percentage(pct: Micro) -> Seq<char> {
    let t = if pct < 0 {
        0
    } else {
        tenths(pct) as nat
    };
    crate::text::decimal(t / 10) + "."@ + crate::text::decimal(t % 10) + "%"@
}

/// A place on the lap as a percentage with one decimal.
pub fn percentage_text(pct: Micro) -> (r: String)
    ensures
        r@ == percentage(pct),
{
    let t: u64 = if pct < 0 {
        0
    } else {
        round_to(pct, 1000) as u64
    };
    let mut s: String = decimal_text(t / 10);
    s.append(".");
    push_decimal(&mut s, t % 10);
    s.append("%");
    s
}

/// What a local yellow means to the player.
pub open spec fn flag_reason(scope: FlagScope) -> &'static str {
    match scope {
        FlagScope::SelfCaused => "Yellow caused by the player's own car",
        FlagScope::Nearby => "Yellow for an incident close to the player",
        FlagScope::SessionWide => "Yellow that affects the whole field",
        FlagScope::Unknown => "Yellow of unknown cause",
    }
}

/// What a local yellow means to the player.
pub fn flag_reason_text(scope: FlagScope) -> (r: &'static str)
    ensures
        r == flag_reason(scope),
{
    match scope {
        FlagScope::SelfCaused => "Yellow caused by the player's own car",
        FlagScope::Nearby => "Yellow for an incident close to the player",
        FlagScope::SessionWide => "Yellow that affects the whole field",
        FlagScope::Unknown => "Yellow of unknown cause",
    }
}

/// The four keys that name both cars of a battle.
pub open spec fn with_battle_cars(
    f: Fields,
    frame: TelemetryFrame,
    player_idx: u8,
    opponent_idx: u8,
    roster: Map<u8, CarRefView>,
) -> Fields {
    let (leader, follower) = leader_and_follower(frame, player_idx, opponent_idx);
    let a = crate::json::with_key(
        f,
        "leaderCarNumber"@,
        JsonView::Text(resolved(leader, roster).car_number),
    );
    let b = crate::json::with_key(
        a,
        "followerCarNumber"@,
        JsonView::Text(resolved(follower, roster).car_number),
    );
    let c = crate::json::with_key(b, "leaderCar"@, car_ref(leader, roster));
    crate::json::with_key(c, "followerCar"@, car_ref(follower, roster))
}

fn set_battle_cars(
    f: &mut Record,
    frame: &TelemetryFrame,
    player_idx: u8,
    opponent_idx: u8,
    roster: Option<&SessionRoster>,
)
    ensures
        final(f)@ == with_battle_cars(
            old(f)@,
            *frame,
            player_idx,
            opponent_idx,
            roster_view(roster),
        ),
{
    let (leader_idx, follower_idx): (u8, u8) = leader_follower_indices(
        frame,
        player_idx,
        opponent_idx,
    );
    let leader: CarRef = resolve_car(leader_idx, roster);
    let follower: CarRef = resolve_car(follower_idx, roster);
    f.set("leaderCarNumber", Json::Text(leader.car_number.clone()));
    f.set("followerCarNumber", Json::Text(follower.car_number.clone()));
    f.set("leaderCar", car_json(&leader));
    f.set("followerCar", car_json(&follower));
}

/// The keys that name both cars of an overtake, as far as they are known.
pub open spec fn with_overtake_cars(
    f: Fields,
    car_idx: u8,
    overtaken: Option<u8>,
    roster: Map<u8, CarRefView>,
) -> Fields {
    let a = crate::json::with_key(f, "overtakingCar"@, car_ref(car_idx, roster));
    match overtaken {
        Some(idx) => crate::json::with_key(a, "overtakenCar"@, car_ref(idx, roster)),
        None => a,
    }
}

fn set_overtake_cars(
    f: &mut Record,
    car_idx: u8,
    overtaken: Option<u8>,
    roster: Option<&SessionRoster>,
)
    ensures
        final(f)@ == with_overtake_cars(old(f)@, car_idx, overtaken, roster_view(roster)),
{
    f.set("overtakingCar", car_object(car_idx, roster));
    if let Some(idx) = overtaken {
        f.set("overtakenCar", car_object(idx, roster));
    }
}

/// Seconds that a battle lasted, never negative.
pub open spec fn duration_of(from: Micro, to: Micro) -> Micro {
    if to > from {
        crate::fixed::clamped(to - from)
    } else {
        0
    }
}

/// The cars of indices, as a list.
pub open spec fn cars_view(s: Seq<u8>, roster: Map<u8, CarRefView>) -> JsonView {
    JsonView::List(Seq::new(s.len(), |i: int| car_ref(s[i], roster)))
}

fn cars_json(v: &Vec<u8>, roster: Option<&SessionRoster>) -> (r: Json)
    ensures
        r@ == cars_view(v@, roster_view(roster)),
{
    let mut out: Vec<Json> = Vec::new();
    let mut i: usize = 0;
    while i < v.len()
        invariant
            i <= v@.len(),
            out@.len() == i,
            forall|k: int|
                0 <= k < i ==> (#[trigger] out@[k])@ == car_ref(v@[k], roster_view(roster)),
        decreases v.len() - i,
    {
        out.push(car_object(v[i], roster));
        i = i + 1;
    }
    assert(crate::json::list_view(out@) =~= Seq::new(
        v@.len(),
        |i: int| car_ref(v@[i], roster_view(roster)),
    ));
    Json::List(out)
}

/// A car that may be unknown.
pub open spec fn opt_car(idx: Option<u8>, roster: Map<u8, CarRefView>) -> JsonView {
    match idx {
        Some(i) => car_ref(i, roster),
        None => JsonView::Null,
    }
}

fn opt_car_object(idx: Option<u8>, roster: Option<&SessionRoster>) -> (r: Json)
    ensures
        r@ == opt_car(idx, roster_view(roster)),
{
    match idx {
        Some(i) => car_object(i, roster),
        None => Json::Null,
    }
}

/// Half way between two places of the lap.
pub open spec fn centre(from: Micro, to: Micro) -> Micro {
    ((from + to) / 2) as i64
}

/// The fields of an event with everything that a consumer should not have to work
/// out: aliases, both cars of a battle or an overtake, resolved cars, durations.
pub open spec fn enriched(
    f: Fields,
    event: RaceEvent,
    frame: TelemetryFrame,
    roster: Map<u8, CarRefView>,
) -> Fields {
    match event {
        RaceEvent::LapCompleted { lap_time_s, best_lap_time_s, .. } => {
            let a = crate::json::with_key(
                f,
                "lapTime"@,
                crate::payload::opt_decimal_view(lap_time_s),
            );
            crate::json::with_key(
                a,
                "bestLapTime"@,
                crate::payload::opt_decimal_view(best_lap_time_s),
            )
        },
        RaceEvent::BattleEngaged {
            player_car_idx,
            opponent_car_idx,
            gap_s,
            engagement_started_at_session_time_s,
            ..
        } => {
            let a = with_battle_cars(f, frame, player_car_idx, opponent_car_idx, roster);
            let b = crate::json::with_key(a, "engagementGapSec"@, gap_or_null(gap_s));
            crate::json::with_key(
                b,
                "engagementStartedAtSessionTime"@,
                JsonView::Decimal(engagement_started_at_session_time_s),
            )
        },
        RaceEvent::BattleBroken {
            player_car_idx,
            opponent_car_idx,
            final_gap_sec,
            engagement_started_at_session_time_s,
            session_time,
            ..
        } => {
            let a = with_battle_cars(f, frame, player_car_idx, opponent_car_idx, roster);
            let b = crate::json::with_key(
                a,
                "finalGapSec"@,
                crate::payload::opt_decimal_view(final_gap_sec),
            );
            crate::json::with_key(
                b,
                "engagementDurationSec"@,
                JsonView::Decimal(
                    duration_of(engagement_started_at_session_time_s, session_time),
                ),
            )
        },
        RaceEvent::BattleClosing { player_car_idx, opponent_car_idx, .. } => with_battle_cars(
            f,
            frame,
            player_car_idx,
            opponent_car_idx,
            roster,
        ),
        RaceEvent::Overtake { car_idx, overtaken_car_idx, .. } => with_overtake_cars(
            f,
            car_idx,
            overtaken_car_idx,
            roster,
        ),
        RaceEvent::OvertakeForLead { car_idx, overtaken_car_idx, .. } => with_overtake_cars(
            f,
            car_idx,
            overtaken_car_idx,
            roster,
        ),
        RaceEvent::TrafficIntercept { traffic_car_idx, .. } => crate::json::with_key(
            f,
            "trafficCar"@,
            car_ref(traffic_car_idx, roster),
        ),
        RaceEvent::HorizonClosing { attacker_car_idx, defender_car_idx, .. } => {
            let a = crate::json::with_key(f, "attackerCar"@, car_ref(attacker_car_idx, roster));
            crate::json::with_key(a, "defenderCar"@, car_ref(defender_car_idx, roster))
        },
        RaceEvent::IncidentCluster {
            car_idxs,
            primary_car_idx,
            incident_type,
            lap_dist_pct_from,
            lap_dist_pct_to,
            ..
        } => {
            let a = crate::json::with_key(f, "involvedCars"@, cars_view(car_idxs@, roster));
            let b = crate::json::with_key(a, "primaryCar"@, opt_car(primary_car_idx, roster));
            let c = crate::json::with_key(
                b,
                "incidentType"@,
                crate::payload::opt_text_view(incident_type),
            );
            crate::json::with_key(
                c,
                "lapDistPct"@,
                JsonView::Decimal(centre(lap_dist_pct_from, lap_dist_pct_to)),
            )
        },
        RaceEvent::FlagYellowLocal { trigger_car_idx, lap_dist_pct, scope, .. } => {
            let a = match trigger_car_idx {
                Some(idx) => crate::json::with_key(f, "triggerCar"@, car_ref(idx, roster)),
                None => f,
            };
            let b = match lap_dist_pct {
                Some(pct) => crate::json::with_key(
                    a,
                    "trackLocationPct"@,
                    JsonView::Text(percentage(pct)),
                ),
                None => a,
            };
            let c = crate::json::with_key(
                b,
                "flagScope"@,
                JsonView::Text(crate::payload::flag_scope_name(scope)@),
            );
            crate::json::with_key(c, "reason"@, JsonView::Text(flag_reason(scope)@))
        },
        RaceEvent::IncidentAlert { current_track_surface, severity, .. } => {
            let a = crate::json::with_key(
                f,
                "trackSurface"@,
                JsonView::Int(current_track_surface as int),
            );
            crate::json::with_key(a, "severityScore"@, JsonView::Decimal(severity))
        },
        RaceEvent::DriverMaterial {
            gap_ahead_s,
            car_ahead_idx,
            gap_behind_s,
            car_behind_idx,
            delta_to_best_s,
            sector_delta_to_best_s,
            ..
        } => {
            let a = crate::json::with_key(
                f,
                "deltaToBest"@,
                crate::payload::opt_decimal_view(delta_to_best_s),
            );
            let b = crate::json::with_key(
                a,
                "sectorDeltaToBest"@,
                crate::payload::opt_decimal_view(sector_delta_to_best_s),
            );
            let c = crate::json::with_key(
                b,
                "gapAhead"@,
                crate::payload::opt_decimal_view(gap_ahead_s),
            );
            let d = crate::json::with_key(c, "carAhead"@, opt_car(car_ahead_idx, roster));
            let e = crate::json::with_key(
                d,
                "gapBehind"@,
                crate::payload::opt_decimal_view(gap_behind_s),
            );
            crate::json::with_key(e, "carBehind"@, opt_car(car_behind_idx, roster))
        },
        _ => f,
    }
}

/// Adds to the fields of an event what a consumer should not have to work out.
pub fn enrich_payload(
    f: &mut Record,
    event: &RaceEvent,
    frame: &TelemetryFrame,
    roster: Option<&SessionRoster>,
)
    ensures
        final(f)@ == enriched(old(f)@, *event, *frame, roster_view(roster)),
{
    match event {
        RaceEvent::LapCompleted { lap_time_s, best_lap_time_s, .. } => {
            f.set("lapTime", opt_decimal(*lap_time_s));
            f.set("bestLapTime", opt_decimal(*best_lap_time_s));
        },
        RaceEvent::BattleEngaged {
            player_car_idx,
            opponent_car_idx,
            gap_s,
            engagement_started_at_session_time_s,
            ..
        } => {
            set_battle_cars(f, frame, *player_car_idx, *opponent_car_idx, roster);
            f.set("engagementGapSec", sanitize_gap(*gap_s));
            f.set(
                "engagementStartedAtSessionTime",
                Json::Decimal(*engagement_started_at_session_time_s),
            );
        },
        RaceEvent::BattleBroken {
            player_car_idx,
            opponent_car_idx,
            final_gap_sec,
            engagement_started_at_session_time_s,
            session_time,
            ..
        } => {
            set_battle_cars(f, frame, *player_car_idx, *opponent_car_idx, roster);
            f.set("finalGapSec", opt_decimal(*final_gap_sec));
            let lasted: Micro = if *session_time > *engagement_started_at_session_time_s {
                minus(*session_time, *engagement_started_at_session_time_s)
            } else {
                0
            };
            f.set("engagementDurationSec", Json::Decimal(lasted));
        },
        RaceEvent::BattleClosing { player_car_idx, opponent_car_idx, .. } => {
            set_battle_cars(f, frame, *player_car_idx, *opponent_car_idx, roster);
        },
        RaceEvent::Overtake { car_idx, overtaken_car_idx, .. } => {
            set_overtake_cars(f, *car_idx, *overtaken_car_idx, roster);
        },
        RaceEvent::OvertakeForLead { car_idx, overtaken_car_idx, .. } => {
            set_overtake_cars(f, *car_idx, *overtaken_car_idx, roster);
        },
        RaceEvent::TrafficIntercept { traffic_car_idx, .. } => {
            f.set("trafficCar", car_object(*traffic_car_idx, roster));
        },
        RaceEvent::HorizonClosing { attacker_car_idx, defender_car_idx, .. } => {
            f.set("attackerCar", car_object(*attacker_car_idx, roster));
            f.set("defenderCar", car_object(*defender_car_idx, roster));
        },
        RaceEvent::IncidentCluster {
            car_idxs,
            primary_car_idx,
            incident_type,
            lap_dist_pct_from,
            lap_dist_pct_to,
            ..
        } => {
            f.set("involvedCars", cars_json(car_idxs, roster));
            f.set("primaryCar", opt_car_object(*primary_car_idx, roster));
            f.set("incidentType", crate::payload::opt_text(incident_type));
            let sum: i128 = *lap_dist_pct_from as i128 + *lap_dist_pct_to as i128;
            f.set("lapDistPct", Json::Decimal(quotient(sum, 2) as i64));
        },
        RaceEvent::FlagYellowLocal { trigger_car_idx, lap_dist_pct, scope, .. } => {
            if let Some(idx) = *trigger_car_idx {
                f.set("triggerCar", car_object(idx, roster));
            }
            if let Some(pct) = *lap_dist_pct {
                f.set("trackLocationPct", Json::Text(percentage_text(pct)));
            }
            f.set("flagScope", Json::Text(flag_scope_text(*scope).to_owned()));
            f.set("reason", Json::Text(flag_reason_text(*scope).to_owned()));
        },
        RaceEvent::IncidentAlert { current_track_surface, severity, .. } => {
            f.set("trackSurface", Json::Int(*current_track_surface as i128));
            f.set("severityScore", Json::Decimal(*severity));
        },
        RaceEvent::DriverMaterial {
            gap_ahead_s,
            car_ahead_idx,
            gap_behind_s,
            car_behind_idx,
            delta_to_best_s,
            sector_delta_to_best_s,
            ..
        } => {
            f.set("deltaToBest", opt_decimal(*delta_to_best_s));
            f.set("sectorDeltaToBest", opt_decimal(*sector_delta_to_best_s));
            f.set("gapAhead", opt_decimal(*gap_ahead_s));
            f.set("carAhead", opt_car_object(*car_ahead_idx, roster));
            f.set("gapBehind", opt_decimal(*gap_behind_s));
            f.set("carBehind", opt_car_object(*car_behind_idx, roster));
        },
        _ => {},
    }
}

/// The fields with a `camelCase` twin for each of the first `n` of them; a key
/// that is there already is kept as it is.
pub open spec fn twinned(f: Fields, n: nat) -> Fields
    decreases n,
{
    if n == 0 {
        f
    } else {
        let rest = twinned(f, (n - 1) as nat);
        let twin = crate::text::camel(f[n - 1].0);
        if crate::json::has_key(rest, twin) {
            rest
        } else {
            rest.push((twin, crate::json::camel_view(f[n - 1].1)))
        }
    }
}

/// Adds the `camelCase` twin of every key.
pub fn add_twins(f: &mut Record)
    ensures
        final(f)@ == twinned(old(f)@, old(f)@.len()),
{
    let ghost before = f@;
    let n: usize = f.len();
    let mut i: usize = 0;
    while i < n
        invariant
            i <= n,
            n == before.len(),
            f@ == twinned(before, i as nat),
            f@.len() >= n,
            forall|k: int| 0 <= k < n ==> #[trigger] f@[k] == before[k],
        decreases n - i,
    {
        assert(f@[i as int] == before[i as int]);
        let twin: String = snake_to_camel(f.field(i).key.as_str());
        if !f.has(twin.as_str()) {
            let value: Json = f.field(i).value.camel_keys();
            f.push(twin.as_str(), value);
        }
        i = i + 1;
    }
}

/// The payload of an event: its fields, what enriches them, who it comes from and
/// who it is about, and the twins of all of these.
pub open spec fn payload_of(
    event: RaceEvent,
    frame: TelemetryFrame,
    roster: Map<u8, CarRefView>,
    rig_id: Seq<char>,
) -> JsonView {
    let rich = enriched(crate::payload::event_fields(event), event, frame, roster);
    let f = identified(rich, event, frame, roster, rig_id);
    JsonView::Object(twinned(f, f.len()))
}

/// The payload of an event.
pub fn payload_json(
    event: &RaceEvent,
    frame: &TelemetryFrame,
    roster: Option<&SessionRoster>,
    rig_id: &str,
) -> (r: Json)
    ensures
        r@ == payload_of(*event, *frame, roster_view(roster), rig_id@),
{
    let mut f: Record = fields_of(event);
    enrich_payload(&mut f, event, frame, roster);
    identify(&mut f, event, frame, roster, rig_id);
    add_twins(&mut f);
    f.into_json()
}

/// The highest of some numbers.
pub open spec fn highest(s: Seq<i32>) -> Option<i32>
    decreases s.len(),
{
    if s.len() == 0 {
        None
    } else {
        match highest(s.drop_last()) {
            Some(x) => if s.last() > x {
                Some(s.last())
            } else {
                Some(x)
            },
            None => Some(s.last()),
        }
    }
}

fn leader_lap(laps: &Vec<i32>) -> (r: Option<i32>)
    ensures
        r == highest(laps@),
{
    let mut top: Option<i32> = None;
    let mut i: usize = 0;
    while i < laps.len()
        invariant
            i <= laps@.len(),
            top == highest(laps@.take(i as int)),
        decreases laps.len() - i,
    {
        proof {
            assert(laps@.take(i + 1).drop_last() =~= laps@.take(i as int));
        }
        let x: i32 = laps[i];
        top = match top {
            Some(t) => if x > t {
                Some(x)
            } else {
                Some(t)
            },
            None => Some(x),
        };
        i = i + 1;
    }
    assert(laps@.take(i as int) =~= laps@);
    top
}

/// The key of an event: sub-session, tick, type and place in the run.
pub open spec fn event_key_of(
    sub_session_id: i64,
    session_tick: i64,
    event_type: Seq<char>,
    sequence: u64,
) -> Seq<char> {
    "v2-"@ + crate::text::integer(sub_session_id as int) + "-"@ + crate::text::integer(
        session_tick as int,
    ) + "-"@ + event_type + "-"@ + crate::text::decimal(sequence as nat)
}

fn event_key_text(
    sub_session_id: i64,
    session_tick: i64,
    event_type: &str,
    sequence: u64,
) -> (r: String)
    ensures
        r@ == event_key_of(sub_session_id, session_tick, event_type@, sequence),
{
    let mut s: String = "v2-".to_owned();
    s.append(integer_text(sub_session_id).as_str());
    s.append("-");
    s.append(integer_text(session_tick).as_str());
    s.append("-");
    s.append(event_type);
    s.append("-");
    push_decimal(&mut s, sequence);
    s
}

/// The subject of an event.
pub open spec fn subject_of(
    event: RaceEvent,
    frame: TelemetryFrame,
    roster: Map<u8, CarRefView>,
) -> Option<SubjectView> {
    match cast_of(event, frame).subject {
        Some(idx) => Some(
            SubjectView { role: cast_of(event, frame).role, car: resolved(idx, roster) },
        ),
        None => None,
    }
}

/// What marks one envelope among all others.
#[derive(Debug)]
pub struct Stamp {
    pub sub_session_id: i64,
    pub run_id: String,
    pub sequence: u64,
    pub id: String,
    /// Milliseconds since the Unix epoch.
    pub timestamp: i64,
}

/// What a [`Stamp`] holds.
#[verifier::ext_equal]
pub struct StampView {
    pub sub_session_id: i64,
    pub run_id: Seq<char>,
    pub sequence: u64,
    pub id: Seq<char>,
    pub timestamp: i64,
}

impl View for Stamp {
    type V = StampView;

    open spec fn view(&self) -> StampView {
        StampView {
            sub_session_id: self.sub_session_id,
            run_id: self.run_id@,
            sequence: self.sequence,
            id: self.id@,
            timestamp: self.timestamp,
        }
    }
}

/// The envelope of an event under a given stamp.
pub open spec fn enveloped(
    event: RaceEvent,
    frame: TelemetryFrame,
    roster: Map<u8, CarRefView>,
    race_session_id: Seq<char>,
    rig_id: Seq<char>,
    stamp: StampView,
) -> EnvelopeView {
    let event_type = crate::race_event::wire_text(crate::race_event::kind_of(event));
    EnvelopeView {
        id: stamp.id,
        event_key: event_key_of(
            stamp.sub_session_id,
            frame.session_tick,
            event_type,
            stamp.sequence,
        ),
        sequence: stamp.sequence,
        emitted_at: crate::utc::utc_text(stamp.timestamp as int),
        publisher_run_id: stamp.run_id,
        contract_version: PAYLOAD_CONTRACT_VERSION,
        race_session_id,
        rig_id,
        event_type,
        timestamp: stamp.timestamp,
        session_time: frame.session_time,
        session_tick: frame.session_tick,
        scope: crate::race_event::scope_of(crate::race_event::kind_of(event)),
        publisher_car: resolved(frame.player_car_idx, roster),
        subject: subject_of(event, frame, roster),
        car: resolved(primary_of(event, frame.player_car_idx), roster),
        payload: payload_of(event, frame, roster, rig_id),
        context: Some(
            PublisherEventContext {
                leader_lap: highest(frame.car_idx_lap_completed@),
                session_state: Some(frame.session_state),
                session_flags: Some(frame.session_flags),
                sub_session_id: Some(stamp.sub_session_id),
            },
        ),
    }
}

/// Wraps an event under a given stamp.
pub fn envelop(
    race_event: &RaceEvent,
    frame: &TelemetryFrame,
    roster: Option<&SessionRoster>,
    race_session_id: &str,
    rig_id: &str,
    stamp: Stamp,
) -> (r: PublisherEvent)
    ensures
        r@ == enveloped(
            *race_event,
            *frame,
            roster_view(roster),
            race_session_id@,
            rig_id@,
            stamp@,
        ),
{
    let car_idx: u8 = primary_car_idx(race_event, frame.player_car_idx);
    let who: crate::identity::Cast = cast(race_event, frame);
    let subject: Option<EventSubject> = match who.subject {
        Some(idx) => Some(EventSubject { role: who.role, car: resolve_car(idx, roster) }),
        None => None,
    };
    let event_type: String = race_event.kind().event_type();
    PublisherEvent {
        event_key: event_key_text(
            stamp.sub_session_id,
            frame.session_tick,
            event_type.as_str(),
            stamp.sequence,
        ),
        sequence: stamp.sequence,
        emitted_at: utc_from_ms(stamp.timestamp),
        contract_version: PAYLOAD_CONTRACT_VERSION,
        race_session_id: race_session_id.to_owned(),
        rig_id: rig_id.to_owned(),
        event_type,
        timestamp: stamp.timestamp,
        session_time: frame.session_time,
        session_tick: frame.session_tick,
        scope: race_event.event_scope(),
        publisher_car: resolve_car(frame.player_car_idx, roster),
        subject,
        car: resolve_car(car_idx, roster),
        payload: payload_json(race_event, frame, roster, rig_id),
        context: Some(
            PublisherEventContext {
                leader_lap: leader_lap(&frame.car_idx_lap_completed),
                session_state: Some(frame.session_state),
                session_flags: Some(frame.session_flags),
                sub_session_id: Some(stamp.sub_session_id),
            },
        ),
        id: stamp.id,
        publisher_run_id: stamp.run_id,
    }
}

/// Whether a text has the form of a version 4 UUID: hexadecimal digits in five
/// groups, the version at the head of the third and the variant at the head of the
/// fourth.
pub open spec fn is_uuid_v4(s: Seq<char>) -> bool {
    &&& s.len() == 36
    &&& s[14] == '4'
    &&& s[19] == '8' || s[19] == '9' || s[19] == 'a' || s[19] == 'b'
    &&& forall|i: int|
        0 <= i < 36 ==> if i == 8 || i == 13 || i == 18 || i == 23 {
            #[trigger] s[i] == '-'
        } else {
            '0' <= s[i] <= '9' || 'a' <= s[i] <= 'f'
        }
}

/// `uuid::Uuid::new_v4` in its hyphenated form. The digits are random; what is
/// promised is the form: 36 characters in five groups, lower case, version 4, the
/// RFC 4122 variant.
#[verifier::external_body]
fn new_uuid() -> (r: String)
    ensures
        is_uuid_v4(r@),
{
    uuid::Uuid::new_v4().to_string()
}

#[verifier::external_type_specification]
#[verifier::external_body]
pub struct ExSystemTime(std::time::SystemTime);

#[verifier::external_type_specification]
#[verifier::external_body]
pub struct ExSystemTimeError(std::time::SystemTimeError);

/// `std::time::SystemTime::now` reads the machine's clock. Nothing is promised of
/// what it says.
pub assume_specification[ std::time::SystemTime::now ]() -> std::time::SystemTime
;

/// How far a reading of the clock lies behind the Unix epoch, or that it lies
/// before it.
pub uninterp spec fn since_epoch(now: std::time::SystemTime) -> Result<
    std::time::Duration,
    std::time::SystemTimeError,
>;

/// `std::time::SystemTime::duration_since` from `std::time::SystemTime::UNIX_EPOCH`
/// on: the result depends on the reading alone.
#[verifier::external_body]
fn duration_since_epoch(now: &std::time::SystemTime) -> (r: Result<
    std::time::Duration,
    std::time::SystemTimeError,
>)
    ensures
        r == since_epoch(*now),
{
    now.duration_since(std::time::SystemTime::UNIX_EPOCH)
}

/// How many whole milliseconds a duration has.
pub uninterp spec fn whole_millis(d: std::time::Duration) -> u128;

/// `std::time::Duration::as_millis` counts the whole milliseconds of a duration:
/// the number depends on the duration alone.
pub assume_specification[ std::time::Duration::as_millis ](d: &std::time::Duration) -> (r: u128)
    ensures
        r == whole_millis(*d),
;

/// Milliseconds from the Unix epoch to a reading of the clock, their low 64 bits
/// where they are more; zero for a reading before the epoch.
pub open spec fn epoch_millis(now: std::time::SystemTime) -> i64 {
    match since_epoch(now) {
        Ok(d) => whole_millis(d) as i64,
        Err(_) => 0,
    }
}

/// Milliseconds from the Unix epoch to a reading of the clock.
pub fn epoch_ms(now: &std::time::SystemTime) -> (r: i64)
    ensures
        r == epoch_millis(*now),
{
    match duration_since_epoch(now) {
        Ok(d) => d.as_millis() as i64,
        Err(_) => 0,
    }
}

/// Whether a number of milliseconds is that of some reading of the clock.
pub open spec fn is_clock_time(ms: i64) -> bool {
    exists|now: std::time::SystemTime| ms == #[trigger] epoch_millis(now)
}

/// Milliseconds of the machine's clock since the Unix epoch, zero where the clock
/// stands before it. Which reading it is, the clock decides.
fn wall_clock_ms() -> (r: i64)
    ensures
        is_clock_time(r),
{
    let now: std::time::SystemTime = std::time::SystemTime::now();
    epoch_ms(&now)
}

/// One run of the publisher: its name, and the number of the next envelope.
#[derive(Debug)]
pub struct PublisherRun {
    pub run_id: String,
    pub next_sequence: u64,
}

/// What a [`PublisherRun`] holds.
#[verifier::ext_equal]
pub struct RunView {
    pub run_id: Seq<char>,
    pub next_sequence: u64,
}

impl View for PublisherRun {
    type V = RunView;

    open spec fn view(&self) -> RunView {
        RunView { run_id: self.run_id@, next_sequence: self.next_sequence }
    }
}

/// A run after `n` envelopes; the count is held at the end of its range.
pub open spec fn run_after(run: RunView, n: nat) -> RunView {
    RunView {
        next_sequence: if run.next_sequence + n > u64::MAX {
            u64::MAX
        } else {
            (run.next_sequence + n) as u64
        },
        ..run
    }
}

impl PublisherRun {
    /// A run that has sent nothing. Its name is random.
    pub fn new() -> (r: Self)
        ensures
            is_uuid_v4(r@.run_id),
            r@.next_sequence == 1,
    {
        PublisherRun { run_id: new_uuid(), next_sequence: 1 }
    }
}

/// The stamp of the next envelope of a run.
pub open spec fn stamp_of(
    run: RunView,
    sub_session_id: i64,
    id: Seq<char>,
    timestamp: i64,
) -> StampView {
    StampView {
        sub_session_id,
        run_id: run.run_id,
        sequence: run.next_sequence,
        id,
        timestamp,
    }
}

/// Wrap a [`RaceEvent`] in a [`PublisherEvent`] envelope ready for serialisation.
///
/// When `roster` is `None` or the car slot is absent, `car` falls back to a stub
/// containing only `carIdx` and the stringified index as `carNumber`.
pub fn build_event(
    race_event: &RaceEvent,
    frame: &TelemetryFrame,
    roster: Option<&SessionRoster>,
    race_session_id: &str,
    rig_id: &str,
    sub_session_id: i64,
    run: &mut PublisherRun,
) -> (r: PublisherEvent)
    ensures
        is_uuid_v4(r.id@),
        is_clock_time(r.timestamp),
        r@ == enveloped(
            *race_event,
            *frame,
            roster_view(roster),
            race_session_id@,
            rig_id@,
            stamp_of(old(run)@, sub_session_id, r.id@, r.timestamp),
        ),
        final(run)@ == run_after(old(run)@, 1),
{
    let stamp: Stamp = Stamp {
        sub_session_id,
        run_id: run.run_id.clone(),
        sequence: run.next_sequence,
        id: new_uuid(),
        timestamp: wall_clock_ms(),
    };
    run.next_sequence = run.next_sequence.saturating_add(1);
    envelop(race_event, frame, roster, race_session_id, rig_id, stamp)
}

/// Session context as an object.
pub open spec fn context_view(c: PublisherEventContext) -> JsonView {
    JsonView::Object(
        seq![
            ("leaderLap"@, crate::payload::opt_i32_view(c.leader_lap)),
            ("sessionState"@, crate::payload::opt_i32_view(c.session_state)),
            ("sessionFlags"@, crate::payload::opt_u32_view(c.session_flags)),
            ("subSessionId"@, crate::payload::opt_i64_view(c.sub_session_id)),
        ],
    )
}

fn context_json(c: &PublisherEventContext) -> (r: Json)
    ensures
        r@ == context_view(*c),
{
    let mut f: Record = Record::new();
    f.push("leaderLap", opt_i32(c.leader_lap));
    f.push("sessionState", opt_i32(c.session_state));
    f.push("sessionFlags", opt_u32(c.session_flags));
    f.push("subSessionId", crate::payload::opt_i64(c.sub_session_id));
    assert(f@ =~= context_view(*c)->Object_0);
    f.into_json()
}

/// A scope on the wire.
pub open spec fn scope_name(s: EventScope) -> &'static str {
    match s {
        EventScope::CarScoped => "CAR_SCOPED",
        EventScope::RigScoped => "RIG_SCOPED",
        EventScope::SessionScoped => "SESSION_SCOPED",
    }
}

fn scope_text(s: EventScope) -> (r: &'static str)
    ensures
        r == scope_name(s),
{
    match s {
        EventScope::CarScoped => "CAR_SCOPED",
        EventScope::RigScoped => "RIG_SCOPED",
        EventScope::SessionScoped => "SESSION_SCOPED",
    }
}

/// An envelope as an object; a subject or a context that is not there is left
/// out.
pub open spec fn envelope_view(e: EnvelopeView) -> JsonView {
    let f: Fields = seq![
        ("id"@, JsonView::Text(e.id)),
        ("eventKey"@, JsonView::Text(e.event_key)),
        ("sequence"@, JsonView::Int(e.sequence as int)),
        ("emittedAt"@, JsonView::Text(e.emitted_at)),
        ("publisherRunId"@, JsonView::Text(e.publisher_run_id)),
        ("contractVersion"@, JsonView::Int(e.contract_version as int)),
        ("raceSessionId"@, JsonView::Text(e.race_session_id)),
        ("rigId"@, JsonView::Text(e.rig_id)),
        ("type"@, JsonView::Text(e.event_type)),
        ("timestamp"@, JsonView::Int(e.timestamp as int)),
        ("sessionTime"@, JsonView::Decimal(e.session_time)),
        ("sessionTick"@, JsonView::Int(e.session_tick as int)),
        ("scope"@, JsonView::Text(scope_name(e.scope)@)),
        ("publisher"@, publisher_view(e.rig_id, e.publisher_car)),
        ("car"@, car_view(e.car)),
        ("payload"@, e.payload),
    ];
    let g = match e.subject {
        Some(s) => f.push(("subject"@, subject_view(s.role, s.car))),
        None => f,
    };
    JsonView::Object(
        match e.context {
            Some(c) => g.push(("context"@, context_view(c))),
            None => g,
        },
    )
}

impl PublisherEvent {
    /// The envelope as it goes out.
    pub fn to_json(&self) -> (r: Json)
        ensures
            r@ == envelope_view(self@),
    {
        let mut f: Record = Record::new();
        f.push("id", Json::Text(self.id.clone()));
        f.push("eventKey", Json::Text(self.event_key.clone()));
        f.push("sequence", Json::Int(self.sequence as i128));
        f.push("emittedAt", Json::Text(self.emitted_at.clone()));
        f.push("publisherRunId", Json::Text(self.publisher_run_id.clone()));
        f.push("contractVersion", Json::Int(self.contract_version as i128));
        f.push("raceSessionId", Json::Text(self.race_session_id.clone()));
        f.push("rigId", Json::Text(self.rig_id.clone()));
        f.push("type", Json::Text(self.event_type.clone()));
        f.push("timestamp", Json::Int(self.timestamp as i128));
        f.push("sessionTime", Json::Decimal(self.session_time));
        f.push("sessionTick", Json::Int(self.session_tick as i128));
        f.push("scope", Json::Text(scope_text(self.scope).to_owned()));
        f.push("publisher", publisher_json(self.rig_id.as_str(), &self.publisher_car));
        f.push("car", car_json(&self.car));
        f.push("payload", self.payload.copy());
        if let Some(s) = &self.subject {
            f.push("subject", subject_json(s.role, &s.car));
        }
        if let Some(c) = &self.context {
            f.push("context", context_json(c));
        }
        assert(f@ =~= envelope_view(self@)->Object_0);
        f.into_json()
    }
}

/// Within one run every envelope has a greater sequence number than all before
/// it: the envelope with `i` before it and the one with `j` before it, where `j`
/// is the later, as long as the count has not come to the end of its range.
pub proof fn sequences_rise(run: RunView, i: nat, j: nat)
    requires
        i < j,
        run.next_sequence + j <= u64::MAX,
    ensures
        run_after(run, i).next_sequence < run_after(run, j).next_sequence,
        run_after(run, i).run_id == run_after(run, j).run_id,
{
}

/// Two events of one run have different sequence numbers, and so different stamps,
/// however many come with one frame; a run may be cut anywhere.
pub proof fn a_run_may_be_cut(run: RunView, i: nat, j: nat)
    ensures
        run_after(run_after(run, i), j) == run_after(run, i + j),
{
}

/// Leader and follower are the two cars of the battle, each once.
pub proof fn leader_and_follower_are_the_two_cars(
    frame: TelemetryFrame,
    player_idx: u8,
    opponent_idx: u8,
)
    ensures
        leader_and_follower(frame, player_idx, opponent_idx) == (player_idx, opponent_idx)
            || leader_and_follower(frame, player_idx, opponent_idx) == (opponent_idx, player_idx),
{
}

/// The car with the better race position leads, whichever of the two is asked
/// about first.
pub proof fn the_better_position_leads(frame: TelemetryFrame, a: u8, b: u8)
    requires
        crate::telemetry_frame::position_of(frame, a as int) > 0,
        crate::telemetry_frame::position_of(frame, b as int) > 0,
        crate::telemetry_frame::position_of(frame, a as int)
            < crate::telemetry_frame::position_of(frame, b as int),
    ensures
        leader_and_follower(frame, a, b) == (a, b),
        leader_and_follower(frame, b, a) == (a, b),
{
}

/// Twins are added behind what was there, which stays as it was.
pub proof fn twins_keep_the_fields(f: Fields, n: nat, k: int)
    requires
        n <= f.len(),
        0 <= k < f.len(),
    ensures
        twinned(f, n).len() >= f.len(),
        twinned(f, n)[k] == f[k],
    decreases n,
{
    if n > 0 {
        twins_keep_the_fields(f, (n - 1) as nat, k);
    }
}

/// Every key is published in `camelCase`.
pub proof fn every_key_has_a_twin(f: Fields, n: nat, k: int)
    requires
        n <= f.len(),
        0 <= k < n,
    ensures
        crate::json::has_key(twinned(f, n), crate::text::camel(f[k].0)),
    decreases n,
{
    let twin = crate::text::camel(f[k].0);
    let rest = twinned(f, (n - 1) as nat);
    if k == n - 1 {
        if !crate::json::has_key(rest, twin) {
            crate::json::a_key_that_was_set_is_found(
                rest,
                twin,
                crate::json::camel_view(f[k].1),
            );
        }
    } else {
        every_key_has_a_twin(f, (n - 1) as nat, k);
        let last = crate::text::camel(f[n - 1].0);
        if !crate::json::has_key(rest, last) && last != twin {
            crate::json::setting_a_key_keeps_the_others(
                rest,
                last,
                crate::json::camel_view(f[n - 1].1),
                twin,
            );
        }
    }
}

/// Setting a key with another name leaves the fields without `event_type`.
proof fn lemma_set_untyped()
    ensures
        forall|f: Fields, key: Seq<char>, value: JsonView|
            crate::payload::untyped(f) && key != "event_type"@ ==> crate::payload::untyped(
                #[trigger] crate::json::with_key(f, key, value),
            ),
{
    assert forall|f: Fields, key: Seq<char>, value: JsonView|
        crate::payload::untyped(f) && key != "event_type"@ implies crate::payload::untyped(
        #[trigger] crate::json::with_key(f, key, value),
    ) by {
        crate::json::a_key_is_there_where_a_field_has_it(f, key);
    }
}

/// Nor does setting many keys.
proof fn lemma_all_untyped(f: Fields, extra: Fields)
    requires
        crate::payload::untyped(f),
        crate::payload::untyped(extra),
    ensures
        crate::payload::untyped(crate::json::with_all(f, extra)),
    decreases extra.len(),
{
    if extra.len() > 0 {
        lemma_all_untyped(f, extra.drop_last());
        lemma_set_untyped();
        assert(extra[extra.len() - 1].0 != "event_type"@);
    }
}

/// Nor does it name an event's source or subject.
proof fn lemma_identity_untyped(
    f: Fields,
    event: RaceEvent,
    frame: TelemetryFrame,
    roster: Map<u8, CarRefView>,
    rig_id: Seq<char>,
)
    requires
        crate::payload::untyped(f),
    ensures
        crate::payload::untyped(identified(f, event, frame, roster, rig_id)),
{
    reveal_strlit("event_type");
    reveal_strlit("publisher");
    reveal_strlit("rigId");
    reveal_strlit("rigLabel");
    reveal_strlit("publisherCarIdx");
    reveal_strlit("publisherCarNumber");
    reveal_strlit("publisherDriverId");
    reveal_strlit("publisherDriverName");
    reveal_strlit("subjectRole");
    reveal_strlit("subject");
    reveal_strlit("subjectCarIdx");
    reveal_strlit("subjectCarNumber");
    reveal_strlit("subjectDriverId");
    reveal_strlit("attackerCarIdx");
    reveal_strlit("attackerCarNumber");
    reveal_strlit("attackerDriverId");
    reveal_strlit("attackerCar");
    reveal_strlit("defenderCarIdx");
    reveal_strlit("defenderCarNumber");
    reveal_strlit("defenderDriverId");
    reveal_strlit("defenderCar");
    assert("publisher"@.len() == 9);
    assert("rigId"@.len() == 5);
    assert("rigLabel"@.len() == 8);
    assert("publisherCarIdx"@.len() == 15);
    assert("publisherCarNumber"@.len() == 18);
    assert("publisherDriverId"@.len() == 17);
    assert("publisherDriverName"@.len() == 19);
    assert("subjectRole"@.len() == 11);
    assert("subject"@.len() == 7);
    assert("subjectCarIdx"@.len() == 13);
    assert("subjectCarNumber"@.len() == 16);
    assert("subjectDriverId"@.len() == 15);
    assert("attackerCarIdx"@.len() == 14);
    assert("attackerCarNumber"@.len() == 17);
    assert("attackerDriverId"@.len() == 16);
    assert("attackerCar"@.len() == 11);
    assert("defenderCarIdx"@.len() == 14);
    assert("defenderCarNumber"@.len() == 17);
    assert("defenderDriverId"@.len() == 16);
    assert("defenderCar"@.len() == 11);
    let who = cast_of(event, frame);
    let own = resolved(frame.player_car_idx, roster);
    let p = crate::identity::publisher_fields(rig_id, own);
    let s = crate::identity::subject_fields(who, roster);
    let a = crate::identity::attacker_fields(who.attacker, roster);
    let d = crate::identity::defender_fields(who.defender, roster);
    lemma_all_untyped(f, p);
    lemma_all_untyped(crate::json::with_all(f, p), s);
    lemma_all_untyped(crate::json::with_all(crate::json::with_all(f, p), s), a);
    lemma_all_untyped(
        crate::json::with_all(crate::json::with_all(crate::json::with_all(f, p), s), a),
        d,
    );
}

/// Nor do twins bring it in: they have no underscore.
proof fn lemma_twins_untyped(f: Fields, n: nat)
    requires
        n <= f.len(),
        crate::payload::untyped(f),
    ensures
        crate::payload::untyped(twinned(f, n)),
    decreases n,
{
    if n > 0 {
        lemma_twins_untyped(f, (n - 1) as nat);
        let twin = crate::text::camel(f[n - 1].0);
        reveal_strlit("event_type");
        if twin.len() == 10 {
            crate::text::camel_has_no_underscore(f[n - 1].0, 5);
        }
        assert(twin != "event_type"@);
    }
}

/// The type is hoisted onto the envelope: no payload has a key `event_type`.
pub proof fn the_payload_does_not_repeat_the_type(
    event: RaceEvent,
    frame: TelemetryFrame,
    roster: Map<u8, CarRefView>,
    rig_id: Seq<char>,
)
    ensures
        !crate::json::has_key(payload_of(event, frame, roster, rig_id)->Object_0, "event_type"@),
{
    let f = crate::payload::event_fields(event);
    assert(crate::payload::untyped(f)) by {
        assert forall|k: int| 0 <= k < f.len() implies (#[trigger] f[k]).0 != "event_type"@ by {
            crate::payload::no_field_is_the_event_type(event, k);
        }
    }
    reveal_strlit("event_type");
    reveal_strlit("attackerCar");
    reveal_strlit("bestLapTime");
    reveal_strlit("defenderCar");
    reveal_strlit("engagementDurationSec");
    reveal_strlit("engagementGapSec");
    reveal_strlit("engagementStartedAtSessionTime");
    reveal_strlit("finalGapSec");
    reveal_strlit("flagScope");
    reveal_strlit("followerCar");
    reveal_strlit("followerCarNumber");
    reveal_strlit("incidentType");
    reveal_strlit("involvedCars");
    reveal_strlit("lapDistPct");
    reveal_strlit("lapTime");
    reveal_strlit("leaderCar");
    reveal_strlit("leaderCarNumber");
    reveal_strlit("overtakenCar");
    reveal_strlit("overtakingCar");
    reveal_strlit("primaryCar");
    reveal_strlit("reason");
    reveal_strlit("severityScore");
    reveal_strlit("trackLocationPct");
    reveal_strlit("trackSurface");
    reveal_strlit("trafficCar");
    reveal_strlit("triggerCar");
    reveal_strlit("carAhead");
    reveal_strlit("carBehind");
    reveal_strlit("deltaToBest");
    reveal_strlit("gapAhead");
    reveal_strlit("gapBehind");
    reveal_strlit("sectorDeltaToBest");
    assert("attackerCar"@.len() == 11);
    assert("bestLapTime"@.len() == 11);
    assert("defenderCar"@.len() == 11);
    assert("engagementDurationSec"@.len() == 21);
    assert("engagementGapSec"@.len() == 16);
    assert("engagementStartedAtSessionTime"@.len() == 30);
    assert("finalGapSec"@.len() == 11);
    assert("flagScope"@.len() == 9);
    assert("followerCar"@.len() == 11);
    assert("followerCarNumber"@.len() == 17);
    assert("incidentType"@.len() == 12);
    assert("involvedCars"@.len() == 12);
    assert("lapDistPct"@[0] != "event_type"@[0]);
    assert("lapTime"@.len() == 7);
    assert("leaderCar"@.len() == 9);
    assert("leaderCarNumber"@.len() == 15);
    assert("overtakenCar"@.len() == 12);
    assert("overtakingCar"@.len() == 13);
    assert("primaryCar"@[0] != "event_type"@[0]);
    assert("reason"@.len() == 6);
    assert("severityScore"@.len() == 13);
    assert("trackLocationPct"@.len() == 16);
    assert("trackSurface"@.len() == 12);
    assert("trafficCar"@[0] != "event_type"@[0]);
    assert("triggerCar"@[0] != "event_type"@[0]);
    assert("carAhead"@.len() == 8);
    assert("carBehind"@.len() == 9);
    assert("deltaToBest"@.len() == 11);
    assert("gapAhead"@.len() == 8);
    assert("gapBehind"@.len() == 9);
    assert("sectorDeltaToBest"@.len() == 17);
    lemma_set_untyped();
    let rich = enriched(f, event, frame, roster);
    assert(crate::payload::untyped(rich));
    lemma_identity_untyped(rich, event, frame, roster, rig_id);
    let full = identified(rich, event, frame, roster, rig_id);
    lemma_twins_untyped(full, full.len());
    crate::json::a_key_is_there_where_a_field_has_it(
        twinned(full, full.len()),
        "event_type"@,
    );
}

/// Whether a character is an ASCII capital.
pub open spec fn is_capital(c: char) -> bool {
    'A' <= c <= 'Z'
}

/// Whether a key has a capital letter.
pub open spec fn has_capital(key: Seq<char>) -> bool {
    exists|i: int| 0 <= i < key.len() && is_capital(#[trigger] key[i])
}

/// The keys that enrich an event have a capital letter, but for `reason`.
proof fn lemma_rich_capitals()
    ensures
        has_capital("attackerCar"@),
        has_capital("bestLapTime"@),
        has_capital("defenderCar"@),
        has_capital("engagementDurationSec"@),
        has_capital("engagementGapSec"@),
        has_capital("engagementStartedAtSessionTime"@),
        has_capital("finalGapSec"@),
        has_capital("flagScope"@),
        has_capital("followerCar"@),
        has_capital("followerCarNumber"@),
        has_capital("incidentType"@),
        has_capital("involvedCars"@),
        has_capital("lapDistPct"@),
        has_capital("lapTime"@),
        has_capital("leaderCar"@),
        has_capital("leaderCarNumber"@),
        has_capital("overtakenCar"@),
        has_capital("overtakingCar"@),
        has_capital("primaryCar"@),
        has_capital("severityScore"@),
        has_capital("trackLocationPct"@),
        has_capital("trackSurface"@),
        has_capital("trafficCar"@),
        has_capital("triggerCar"@),
        has_capital("carAhead"@),
        has_capital("carBehind"@),
        has_capital("deltaToBest"@),
        has_capital("gapAhead"@),
        has_capital("gapBehind"@),
        has_capital("sectorDeltaToBest"@),
{
    reveal_strlit("attackerCar");
    assert(is_capital("attackerCar"@[8]));
    reveal_strlit("bestLapTime");
    assert(is_capital("bestLapTime"@[4]));
    reveal_strlit("defenderCar");
    assert(is_capital("defenderCar"@[8]));
    reveal_strlit("engagementDurationSec");
    assert(is_capital("engagementDurationSec"@[10]));
    reveal_strlit("engagementGapSec");
    assert(is_capital("engagementGapSec"@[10]));
    reveal_strlit("engagementStartedAtSessionTime");
    assert(is_capital("engagementStartedAtSessionTime"@[10]));
    reveal_strlit("finalGapSec");
    assert(is_capital("finalGapSec"@[5]));
    reveal_strlit("flagScope");
    assert(is_capital("flagScope"@[4]));
    reveal_strlit("followerCar");
    assert(is_capital("followerCar"@[8]));
    reveal_strlit("followerCarNumber");
    assert(is_capital("followerCarNumber"@[8]));
    reveal_strlit("incidentType");
    assert(is_capital("incidentType"@[8]));
    reveal_strlit("involvedCars");
    assert(is_capital("involvedCars"@[8]));
    reveal_strlit("lapDistPct");
    assert(is_capital("lapDistPct"@[3]));
    reveal_strlit("lapTime");
    assert(is_capital("lapTime"@[3]));
    reveal_strlit("leaderCar");
    assert(is_capital("leaderCar"@[6]));
    reveal_strlit("leaderCarNumber");
    assert(is_capital("leaderCarNumber"@[6]));
    reveal_strlit("overtakenCar");
    assert(is_capital("overtakenCar"@[9]));
    reveal_strlit("overtakingCar");
    assert(is_capital("overtakingCar"@[10]));
    reveal_strlit("primaryCar");
    assert(is_capital("primaryCar"@[7]));
    reveal_strlit("severityScore");
    assert(is_capital("severityScore"@[8]));
    reveal_strlit("trackLocationPct");
    assert(is_capital("trackLocationPct"@[5]));
    reveal_strlit("trackSurface");
    assert(is_capital("trackSurface"@[5]));
    reveal_strlit("trafficCar");
    assert(is_capital("trafficCar"@[7]));
    reveal_strlit("triggerCar");
    assert(is_capital("triggerCar"@[7]));
    reveal_strlit("carAhead");
    assert(is_capital("carAhead"@[3]));
    reveal_strlit("carBehind");
    assert(is_capital("carBehind"@[3]));
    reveal_strlit("deltaToBest");
    assert(is_capital("deltaToBest"@[5]));
    reveal_strlit("gapAhead");
    assert(is_capital("gapAhead"@[3]));
    reveal_strlit("gapBehind");
    assert(is_capital("gapBehind"@[3]));
    reveal_strlit("sectorDeltaToBest");
    assert(is_capital("sectorDeltaToBest"@[6]));
}

/// So have those that name its source and its subject, but for `publisher` and
/// `subject`.
proof fn lemma_identity_capitals()
    ensures
        has_capital("rigId"@),
        has_capital("rigLabel"@),
        has_capital("publisherCarIdx"@),
        has_capital("publisherCarNumber"@),
        has_capital("publisherDriverId"@),
        has_capital("publisherDriverName"@),
        has_capital("subjectRole"@),
        has_capital("subjectCarIdx"@),
        has_capital("subjectCarNumber"@),
        has_capital("subjectDriverId"@),
        has_capital("attackerCarIdx"@),
        has_capital("attackerCarNumber"@),
        has_capital("attackerDriverId"@),
        has_capital("attackerCar"@),
        has_capital("defenderCarIdx"@),
        has_capital("defenderCarNumber"@),
        has_capital("defenderDriverId"@),
        has_capital("defenderCar"@),
{
    reveal_strlit("rigId");
    assert(is_capital("rigId"@[3]));
    reveal_strlit("rigLabel");
    assert(is_capital("rigLabel"@[3]));
    reveal_strlit("publisherCarIdx");
    assert(is_capital("publisherCarIdx"@[9]));
    reveal_strlit("publisherCarNumber");
    assert(is_capital("publisherCarNumber"@[9]));
    reveal_strlit("publisherDriverId");
    assert(is_capital("publisherDriverId"@[9]));
    reveal_strlit("publisherDriverName");
    assert(is_capital("publisherDriverName"@[9]));
    reveal_strlit("subjectRole");
    assert(is_capital("subjectRole"@[7]));
    reveal_strlit("subjectCarIdx");
    assert(is_capital("subjectCarIdx"@[7]));
    reveal_strlit("subjectCarNumber");
    assert(is_capital("subjectCarNumber"@[7]));
    reveal_strlit("subjectDriverId");
    assert(is_capital("subjectDriverId"@[7]));
    reveal_strlit("attackerCarIdx");
    assert(is_capital("attackerCarIdx"@[8]));
    reveal_strlit("attackerCarNumber");
    assert(is_capital("attackerCarNumber"@[8]));
    reveal_strlit("attackerDriverId");
    assert(is_capital("attackerDriverId"@[8]));
    reveal_strlit("attackerCar");
    assert(is_capital("attackerCar"@[8]));
    reveal_strlit("defenderCarIdx");
    assert(is_capital("defenderCarIdx"@[8]));
    reveal_strlit("defenderCarNumber");
    assert(is_capital("defenderCarNumber"@[8]));
    reveal_strlit("defenderDriverId");
    assert(is_capital("defenderDriverId"@[8]));
    reveal_strlit("defenderCar");
    assert(is_capital("defenderCar"@[8]));
}

/// Setting one key leaves another as it was.
proof fn lemma_set_keeps(key: Seq<char>)
    ensures
        forall|f: Fields, k: Seq<char>, value: JsonView|
            crate::json::has_key(f, key) ==> {
                let g = #[trigger] crate::json::with_key(f, k, value);
                &&& crate::json::has_key(g, key)
                &&& k != key ==> crate::json::value_at(g, key) == crate::json::value_at(f, key)
            },
{
    assert forall|f: Fields, k: Seq<char>, value: JsonView|
        crate::json::has_key(f, key) implies {
            let g = #[trigger] crate::json::with_key(f, k, value);
            &&& crate::json::has_key(g, key)
            &&& k != key ==> crate::json::value_at(g, key) == crate::json::value_at(f, key)
        } by {
        if k == key {
            crate::json::a_key_that_was_set_is_found(f, k, value);
        } else {
            crate::json::setting_a_key_keeps_the_others(f, k, value, key);
        }
    }
}

/// Whether a key is the event's own: enriching it does not set it.
pub open spec fn is_own_key(event: RaceEvent, key: Seq<char>) -> bool {
    !has_capital(key) && key != "publisher"@ && key != "subject"@ && !(key == "reason"@
        && event is FlagYellowLocal)
}

/// Enriching an event takes no key away and leaves its own keys as they were.
proof fn lemma_enriched_keeps(
    f: Fields,
    event: RaceEvent,
    frame: TelemetryFrame,
    roster: Map<u8, CarRefView>,
    key: Seq<char>,
)
    requires
        crate::json::has_key(f, key),
    ensures
        crate::json::has_key(enriched(f, event, frame, roster), key),
        is_own_key(event, key) ==> crate::json::value_at(
            enriched(f, event, frame, roster),
            key,
        ) == crate::json::value_at(f, key),
{
    lemma_rich_capitals();
    lemma_set_keeps(key);
}

/// So does naming its source and its subject.
proof fn lemma_identified_keeps(
    f: Fields,
    event: RaceEvent,
    frame: TelemetryFrame,
    roster: Map<u8, CarRefView>,
    rig_id: Seq<char>,
    key: Seq<char>,
)
    requires
        crate::json::has_key(f, key),
    ensures
        crate::json::has_key(identified(f, event, frame, roster, rig_id), key),
        is_own_key(event, key) ==> crate::json::value_at(
            identified(f, event, frame, roster, rig_id),
            key,
        ) == crate::json::value_at(f, key),
{
    let who = cast_of(event, frame);
    let own = resolved(frame.player_car_idx, roster);
    let p = crate::identity::publisher_fields(rig_id, own);
    let s = crate::identity::subject_fields(who, roster);
    let a = crate::identity::attacker_fields(who.attacker, roster);
    let d = crate::identity::defender_fields(who.defender, roster);
    lemma_identity_capitals();
    crate::json::a_key_is_there_where_a_field_has_it(p, key);
    crate::json::a_key_is_there_where_a_field_has_it(s, key);
    crate::json::a_key_is_there_where_a_field_has_it(a, key);
    crate::json::a_key_is_there_where_a_field_has_it(d, key);
    let fp = crate::json::with_all(f, p);
    let fs = crate::json::with_all(fp, s);
    let fa = crate::json::with_all(fs, a);
    crate::json::setting_keys_removes_none(f, p, key);
    crate::json::setting_keys_removes_none(fp, s, key);
    crate::json::setting_keys_removes_none(fs, a, key);
    crate::json::setting_keys_removes_none(fa, d, key);
}

/// And so do twins.
proof fn lemma_twins_keep(f: Fields, n: nat, key: Seq<char>)
    requires
        n <= f.len(),
        crate::json::has_key(f, key),
    ensures
        crate::json::has_key(twinned(f, n), key),
        crate::json::value_at(twinned(f, n), key) == crate::json::value_at(f, key),
    decreases n,
{
    if n > 0 {
        lemma_twins_keep(f, (n - 1) as nat, key);
        let rest = twinned(f, (n - 1) as nat);
        let twin = crate::text::camel(f[n - 1].0);
        if !crate::json::has_key(rest, twin) {
            crate::json::setting_a_key_keeps_the_others(
                rest,
                twin,
                crate::json::camel_view(f[n - 1].1),
                key,
            );
        }
    }
}

/// A payload holds every field of its event: whatever is put in beside them takes none
/// away, and those that have the event's own spelling, without capitals, keep their
/// values.
pub proof fn the_payload_only_adds_to_the_event(
    event: RaceEvent,
    frame: TelemetryFrame,
    roster: Map<u8, CarRefView>,
    rig_id: Seq<char>,
    key: Seq<char>,
)
    requires
        crate::json::has_key(crate::payload::event_fields(event), key),
    ensures
        crate::json::has_key(payload_of(event, frame, roster, rig_id)->Object_0, key),
        is_own_key(event, key) ==> crate::json::value_at(
            payload_of(event, frame, roster, rig_id)->Object_0,
            key,
        ) == crate::json::value_at(crate::payload::event_fields(event), key),
{
    let f = crate::payload::event_fields(event);
    let rich = enriched(f, event, frame, roster);
    let full = identified(rich, event, frame, roster, rig_id);
    lemma_enriched_keeps(f, event, frame, roster, key);
    lemma_identified_keeps(rich, event, frame, roster, rig_id, key);
    lemma_twins_keep(full, full.len(), key);
}

/// How the keys that name an event's source and subject begin, and how long they are.
proof fn lemma_identity_names()
    ensures
        "publisher"@.len() == 9 && "publisher"@[0] == 'p',
        "rigId"@.len() == 5 && "rigId"@[0] == 'r',
        "rigLabel"@.len() == 8 && "rigLabel"@[0] == 'r',
        "publisherCarIdx"@.len() == 15 && "publisherCarIdx"@[0] == 'p',
        "publisherCarNumber"@.len() == 18 && "publisherCarNumber"@[0] == 'p',
        "publisherDriverId"@.len() == 17 && "publisherDriverId"@[0] == 'p',
        "publisherDriverName"@.len() == 19 && "publisherDriverName"@[0] == 'p',
        "subjectRole"@.len() == 11 && "subjectRole"@[0] == 's',
        "subject"@.len() == 7 && "subject"@[0] == 's',
        "subjectCarIdx"@.len() == 13 && "subjectCarIdx"@[0] == 's',
        "subjectCarNumber"@.len() == 16 && "subjectCarNumber"@[0] == 's',
        "subjectDriverId"@.len() == 15 && "subjectDriverId"@[0] == 's',
        "attackerCarIdx"@.len() == 14 && "attackerCarIdx"@[0] == 'a',
        "attackerCarNumber"@.len() == 17 && "attackerCarNumber"@[0] == 'a',
        "attackerDriverId"@.len() == 16 && "attackerDriverId"@[0] == 'a',
        "attackerCar"@.len() == 11 && "attackerCar"@[0] == 'a',
        "defenderCarIdx"@.len() == 14 && "defenderCarIdx"@[0] == 'd',
        "defenderCarNumber"@.len() == 17 && "defenderCarNumber"@[0] == 'd',
        "defenderDriverId"@.len() == 16 && "defenderDriverId"@[0] == 'd',
        "defenderCar"@.len() == 11 && "defenderCar"@[0] == 'd',
{
    reveal_strlit("publisher");
    reveal_strlit("rigId");
    reveal_strlit("rigLabel");
    reveal_strlit("publisherCarIdx");
    reveal_strlit("publisherCarNumber");
    reveal_strlit("publisherDriverId");
    reveal_strlit("publisherDriverName");
    reveal_strlit("subjectRole");
    reveal_strlit("subject");
    reveal_strlit("subjectCarIdx");
    reveal_strlit("subjectCarNumber");
    reveal_strlit("subjectDriverId");
    reveal_strlit("attackerCarIdx");
    reveal_strlit("attackerCarNumber");
    reveal_strlit("attackerDriverId");
    reveal_strlit("attackerCar");
    reveal_strlit("defenderCarIdx");
    reveal_strlit("defenderCarNumber");
    reveal_strlit("defenderDriverId");
    reveal_strlit("defenderCar");
}

/// Whether all keys differ.
spec fn distinct(f: Fields) -> bool {
    forall|i: int, k: int|
        0 <= i < k < f.len() ==> (#[trigger] f[i]).0 != (#[trigger] f[k]).0
}

/// Whether no key of one object is one of the other.
spec fn apart(f: Fields, g: Fields) -> bool {
    forall|i: int, k: int|
        0 <= i < f.len() && 0 <= k < g.len() ==> (#[trigger] f[i]).0 != (#[trigger] g[k]).0
}

/// Keys that are set and not set again behind are found with their values.
proof fn lemma_set_and_kept(f: Fields, extra: Fields, behind: Fields, k: int)
    requires
        0 <= k < extra.len(),
        crate::json::has_key(f, extra[k].0),
        crate::json::value_at(f, extra[k].0) == extra[k].1,
        apart(extra, behind),
    ensures
        crate::json::has_key(crate::json::with_all(f, behind), extra[k].0),
        crate::json::value_at(crate::json::with_all(f, behind), extra[k].0) == extra[k].1,
{
    crate::json::a_key_is_there_where_a_field_has_it(behind, extra[k].0);
    crate::json::setting_keys_removes_none(f, behind, extra[k].0);
}

/// Whether a payload holds the fields with their values.
pub open spec fn holds_all(payload: Fields, fields: Fields) -> bool {
    forall|k: int|
        0 <= k < fields.len() ==> crate::json::has_key(payload, (#[trigger] fields[k]).0)
            && crate::json::value_at(payload, fields[k].0) == fields[k].1
}

/// Who an event comes from and who it is about stands in its payload as it stands on
/// the envelope: nothing else in the payload takes the place of these fields.
pub proof fn the_payload_names_source_and_subject(
    event: RaceEvent,
    frame: TelemetryFrame,
    roster: Map<u8, CarRefView>,
    rig_id: Seq<char>,
)
    ensures
        ({
            let payload = payload_of(event, frame, roster, rig_id)->Object_0;
            let who = cast_of(event, frame);
            let own = resolved(frame.player_car_idx, roster);
            &&& holds_all(payload, crate::identity::publisher_fields(rig_id, own))
            &&& holds_all(payload, crate::identity::subject_fields(who, roster))
            &&& holds_all(payload, crate::identity::attacker_fields(who.attacker, roster))
            &&& holds_all(payload, crate::identity::defender_fields(who.defender, roster))
        }),
{
    let rich = enriched(crate::payload::event_fields(event), event, frame, roster);
    let who = cast_of(event, frame);
    let own = resolved(frame.player_car_idx, roster);
    let p = crate::identity::publisher_fields(rig_id, own);
    let s = crate::identity::subject_fields(who, roster);
    let a = crate::identity::attacker_fields(who.attacker, roster);
    let d = crate::identity::defender_fields(who.defender, roster);
    lemma_identity_names();
    assert(distinct(p) && distinct(s) && distinct(a) && distinct(d));
    assert(apart(p, s) && apart(p, a) && apart(p, d));
    assert(apart(s, a) && apart(s, d) && apart(a, d));
    let fp = crate::json::with_all(rich, p);
    let fs = crate::json::with_all(fp, s);
    let fa = crate::json::with_all(fs, a);
    let fd = crate::json::with_all(fa, d);
    let full = twinned(fd, fd.len());
    assert forall|k: int| 0 <= k < p.len() implies crate::json::has_key(full, (#[trigger] p[k]).0)
        && crate::json::value_at(full, p[k].0) == p[k].1 by {
        crate::json::keys_that_were_set_are_found(rich, p, k);
        lemma_set_and_kept(fp, p, s, k);
        lemma_set_and_kept(fs, p, a, k);
        lemma_set_and_kept(fa, p, d, k);
        lemma_twins_keep(fd, fd.len(), p[k].0);
    }
    assert forall|k: int| 0 <= k < s.len() implies crate::json::has_key(full, (#[trigger] s[k]).0)
        && crate::json::value_at(full, s[k].0) == s[k].1 by {
        crate::json::keys_that_were_set_are_found(fp, s, k);
        lemma_set_and_kept(fs, s, a, k);
        lemma_set_and_kept(fa, s, d, k);
        lemma_twins_keep(fd, fd.len(), s[k].0);
    }
    assert forall|k: int| 0 <= k < a.len() implies crate::json::has_key(full, (#[trigger] a[k]).0)
        && crate::json::value_at(full, a[k].0) == a[k].1 by {
        crate::json::keys_that_were_set_are_found(fs, a, k);
        lemma_set_and_kept(fa, a, d, k);
        lemma_twins_keep(fd, fd.len(), a[k].0);
    }
    assert forall|k: int| 0 <= k < d.len() implies crate::json::has_key(full, (#[trigger] d[k]).0)
        && crate::json::value_at(full, d[k].0) == d[k].1 by {
        crate::json::keys_that_were_set_are_found(fa, d, k);
        lemma_twins_keep(fd, fd.len(), d[k].0);
    }
}

/// A place on the lap is given as a percentage with one decimal that is no more than half
/// a tenth of a percent off.
pub proof fn a_percentage_is_half_a_tenth_off_at_most(pct: Micro) -> (parts: (nat, nat))
    requires
        pct >= 0,
    ensures
        ({
            let (whole, tenth) = parts;
            &&& tenth < 10
            &&& percentage(pct) == crate::text::decimal(whole) + "."@ + seq![
                crate::text::digit(tenth),
            ] + "%"@
            &&& -500 <= pct - (10 * whole + tenth) * 1_000 <= 500
        }),
{
    crate::fixed::rounding_is_half_a_unit_off_at_most(pct as int, 1_000);
    let t = crate::fixed::rounded(pct as int, 1_000);
    assert(t >= 0);
    ((t / 10) as nat, (t % 10) as nat)
}

/// A battle lasted from its beginning to its end, and no time where the clock ran back.
pub proof fn a_battle_lasts_from_beginning_to_end(from: Micro, to: Micro)
    requires
        from >= 0,
    ensures
        to >= from ==> from + duration_of(from, to) == to,
        to < from ==> duration_of(from, to) == 0,
{
}

/// Half way is as far from the one place as from the other, but for the rounding down.
pub proof fn half_way_is_between(from: Micro, to: Micro)
    ensures
        0 <= (to - centre(from, to)) - (centre(from, to) - from) <= 1,
{
}

/// The leader's laps are the most that any car has; there are none where there is no car.
pub proof fn the_leader_has_the_most_laps(laps: Seq<i32>)
    ensures
        laps.len() == 0 <==> highest(laps) is None,
        laps.len() > 0 ==> laps.contains(highest(laps)->0),
        forall|i: int| 0 <= i < laps.len() ==> #[trigger] laps[i] <= highest(laps)->0,
    decreases laps.len(),
{
    if laps.len() > 0 {
        let front = laps.drop_last();
        the_leader_has_the_most_laps(front);
        let n = laps.len() - 1;
        assert(laps[n] == laps.last());
        assert forall|i: int| 0 <= i < laps.len() implies #[trigger] laps[i]
            <= highest(laps)->0 by {
            if i < n {
                assert(front[i] == laps[i]);
            }
        }
        if front.len() > 0 {
            let k = choose|k: int| 0 <= k < front.len() && front[k] == highest(front)->0;
            assert(laps[k] == front[k]);
        }
    }
}

/// No two envelopes of a run share a key: keys that are the same have the same sequence
/// number, whatever else they are made of.
pub proof fn keys_of_a_run_differ(
    sub_a: i64,
    tick_a: i64,
    type_a: Seq<char>,
    seq_a: u64,
    sub_b: i64,
    tick_b: i64,
    type_b: Seq<char>,
    seq_b: u64,
)
    requires
        event_key_of(sub_a, tick_a, type_a, seq_a) == event_key_of(sub_b, tick_b, type_b, seq_b),
    ensures
        seq_a == seq_b,
{
    reveal_strlit("-");
    let k = event_key_of(sub_a, tick_a, type_a, seq_a);
    let a = crate::text::decimal(seq_a as nat);
    let b = crate::text::decimal(seq_b as nat);
    crate::text::lemma_decimal_digits(seq_a as nat);
    crate::text::lemma_decimal_digits(seq_b as nat);
    lemma_key_ends(sub_a, tick_a, type_a, seq_a);
    lemma_key_ends(sub_b, tick_b, type_b, seq_b);
    let n = k.len() as int;
    if a.len() < b.len() {
        let i = b.len() - a.len() - 1;
        assert(k[n - a.len() - 1] == b[i]);
        assert(crate::text::is_digit(b[i]));
    }
    if b.len() < a.len() {
        let i = a.len() - b.len() - 1;
        assert(k[n - b.len() - 1] == a[i]);
        assert(crate::text::is_digit(a[i]));
    }
    assert(a =~= b) by {
        assert forall|i: int| 0 <= i < a.len() implies a[i] == b[i] by {
            assert(k[n - a.len() + i] == a[i]);
            assert(k[n - b.len() + i] == b[i]);
        }
    }
    crate::text::number_in_decimal(seq_a);
    crate::text::number_in_decimal(seq_b);
}

/// A key ends with a dash and the digits of its sequence number.
proof fn lemma_key_ends(sub: i64, tick: i64, kind: Seq<char>, seq: u64)
    ensures
        ({
            let k = event_key_of(sub, tick, kind, seq);
            let d = crate::text::decimal(seq as nat);
            &&& k.len() >= d.len() + 1
            &&& k[k.len() - d.len() - 1] == '-'
            &&& forall|i: int| 0 <= i < d.len() ==> k[k.len() - d.len() + i] == #[trigger] d[i]
        }),
{
    reveal_strlit("-");
    let d = crate::text::decimal(seq as nat);
    let head = "v2-"@ + crate::text::integer(sub as int) + "-"@ + crate::text::integer(tick as int)
        + "-"@ + kind;
    assert(event_key_of(sub, tick, kind, seq) == head + "-"@ + d);
}

/// An envelope carries the run's number and name, the frame's clock, and the second
/// revision of the contract; the car that it names is the opponent in a battle and the
/// player's own otherwise.
pub proof fn an_envelope_says_where_it_stands(
    event: RaceEvent,
    frame: TelemetryFrame,
    roster: Map<u8, CarRefView>,
    race_session_id: Seq<char>,
    rig_id: Seq<char>,
    run: RunView,
    sub_session_id: i64,
    id: Seq<char>,
    timestamp: i64,
)
    ensures
        ({
            let e = enveloped(
                event,
                frame,
                roster,
                race_session_id,
                rig_id,
                stamp_of(run, sub_session_id, id, timestamp),
            );
            &&& e.sequence == run.next_sequence
            &&& e.publisher_run_id == run.run_id
            &&& e.id == id
            &&& e.timestamp == timestamp
            &&& e.session_time == frame.session_time
            &&& e.session_tick == frame.session_tick
            &&& e.race_session_id == race_session_id
            &&& e.rig_id == rig_id
            &&& e.contract_version == 2
            &&& e.context is Some
            &&& (e.context->0).sub_session_id == Some(sub_session_id)
            &&& (e.context->0).session_state == Some(frame.session_state)
            &&& (e.context->0).session_flags == Some(frame.session_flags)
            &&& (e.context->0).leader_lap == highest(frame.car_idx_lap_completed@)
            &&& roster.contains_key(frame.player_car_idx) ==> e.publisher_car
                == roster[frame.player_car_idx]
            &&& run_after(run, 1).next_sequence == run.next_sequence + 1 || run.next_sequence
                == u64::MAX
            &&& (event is BattleEngaged ==> e.car == resolved(
                event->BattleEngaged_opponent_car_idx,
                roster,
            ))
            &&& (event is BattleBroken ==> e.car == resolved(
                event->BattleBroken_opponent_car_idx,
                roster,
            ))
            &&& (event is BattleClosing ==> e.car == resolved(
                event->BattleClosing_opponent_car_idx,
                roster,
            ))
            &&& !(event is BattleEngaged) && !(event is BattleBroken) && !(event is BattleClosing)
                ==> e.car == e.publisher_car
        }),
{
}

/// The keys that name both cars of a battle: the one with the better position leads.
pub proof fn the_payload_names_leader_and_follower(
    f: Fields,
    frame: TelemetryFrame,
    player: u8,
    opponent: u8,
    roster: Map<u8, CarRefView>,
)
    requires
        crate::telemetry_frame::position_of(frame, player as int) > 0,
        crate::telemetry_frame::position_of(frame, opponent as int) > 0,
        crate::telemetry_frame::position_of(frame, player as int)
            != crate::telemetry_frame::position_of(frame, opponent as int),
    ensures
        ({
            let g = with_battle_cars(f, frame, player, opponent, roster);
            let player_leads = crate::telemetry_frame::position_of(frame, player as int)
                < crate::telemetry_frame::position_of(frame, opponent as int);
            let leader = if player_leads {
                player
            } else {
                opponent
            };
            let follower = if player_leads {
                opponent
            } else {
                player
            };
            &&& crate::json::has_key(g, "leaderCarNumber"@)
            &&& crate::json::value_at(g, "leaderCarNumber"@) == JsonView::Text(
                resolved(leader, roster).car_number,
            )
            &&& crate::json::has_key(g, "followerCarNumber"@)
            &&& crate::json::value_at(g, "followerCarNumber"@) == JsonView::Text(
                resolved(follower, roster).car_number,
            )
            &&& crate::json::has_key(g, "leaderCar"@)
            &&& crate::json::value_at(g, "leaderCar"@) == car_ref(leader, roster)
            &&& crate::json::has_key(g, "followerCar"@)
            &&& crate::json::value_at(g, "followerCar"@) == car_ref(follower, roster)
        }),
{
    reveal_strlit("leaderCarNumber");
    reveal_strlit("followerCarNumber");
    reveal_strlit("leaderCar");
    reveal_strlit("followerCar");
    let (leader, follower) = leader_and_follower(frame, player, opponent);
    let k1 = "leaderCarNumber"@;
    let k2 = "followerCarNumber"@;
    let k3 = "leaderCar"@;
    let k4 = "followerCar"@;
    let v1 = JsonView::Text(resolved(leader, roster).car_number);
    let v2 = JsonView::Text(resolved(follower, roster).car_number);
    let v3 = car_ref(leader, roster);
    let v4 = car_ref(follower, roster);
    assert(k1.len() == 15 && k2.len() == 17 && k3.len() == 9 && k4.len() == 11);
    let a = crate::json::with_key(f, k1, v1);
    let b = crate::json::with_key(a, k2, v2);
    let c = crate::json::with_key(b, k3, v3);
    crate::json::a_key_that_was_set_is_found(f, k1, v1);
    crate::json::a_key_that_was_set_is_found(a, k2, v2);
    crate::json::a_key_that_was_set_is_found(b, k3, v3);
    crate::json::a_key_that_was_set_is_found(c, k4, v4);
    crate::json::setting_a_key_keeps_the_others(a, k2, v2, k1);
    crate::json::setting_a_key_keeps_the_others(b, k3, v3, k1);
    crate::json::setting_a_key_keeps_the_others(c, k4, v4, k1);
    crate::json::setting_a_key_keeps_the_others(b, k3, v3, k2);
    crate::json::setting_a_key_keeps_the_others(c, k4, v4, k2);
    crate::json::setting_a_key_keeps_the_others(c, k4, v4, k3);
}

/// A car that the roster does not have is known by its index for a number, and nothing
/// else is known of it; one that it has is as the roster says.
pub proof fn an_unknown_car_has_its_index_for_a_number(car_idx: u8, roster: Map<u8, CarRefView>)
    ensures
        roster.contains_key(car_idx) ==> resolved(car_idx, roster) == roster[car_idx],
        !roster.contains_key(car_idx) ==> {
            let c = resolved(car_idx, roster);
            &&& c.car_idx == car_idx
            &&& c.car_number == crate::text::decimal(car_idx as nat)
            &&& c.driver_name.len() == 0
            &&& c.team_name is None && c.car_class_short_name is None && c.car_class_id is None
            &&& c.user_id is None && c.irating is None && c.lic_string is None && c.flair_name
                is None
        },
{
}

/// A gap is published as it is, but for the one at the end of the range, which stands for
/// none.
pub proof fn a_gap_beyond_all_is_none(gap: Micro)
    ensures
        gap == 0x7fff_ffff_ffff_ffff <==> gap_or_null(gap) == JsonView::Null,
        gap != 0x7fff_ffff_ffff_ffff ==> gap_or_null(gap) == JsonView::Decimal(gap),
{
}

/// A key of a twinned object is one of its own or the twin of one.
proof fn lemma_twin_keys(f: Fields, n: nat, key: Seq<char>)
    requires
        n <= f.len(),
        crate::json::has_key(twinned(f, n), key),
    ensures
        (exists|i: int| 0 <= i < f.len() && (#[trigger] f[i]).0 == key) || (exists|j: int|
            0 <= j < n && crate::text::camel((#[trigger] f[j]).0) == key),
    decreases n,
{
    crate::json::a_key_is_there_where_a_field_has_it(twinned(f, n), key);
    if n > 0 {
        let rest = twinned(f, (n - 1) as nat);
        crate::json::a_key_is_there_where_a_field_has_it(rest, key);
        let all = twinned(f, n);
        let p = crate::json::key_place(all, key, 0);
        if p < rest.len() {
            assert(rest[p] == all[p]);
            lemma_twin_keys(f, (n - 1) as nat, key);
        } else {
            assert(crate::text::camel(f[n - 1].0) == key);
        }
    }
}

/// The twin of a field has its value, with the keys inside it in `camelCase` too, unless
/// another field has that name already.
pub proof fn a_twin_has_the_value_of_its_field(f: Fields, n: nat, k: int)
    requires
        0 <= k < n <= f.len(),
        forall|i: int| 0 <= i < f.len() ==> (#[trigger] f[i]).0 != crate::text::camel(f[k].0),
        forall|j: int|
            0 <= j < k ==> crate::text::camel((#[trigger] f[j]).0) != crate::text::camel(f[k].0),
    ensures
        crate::json::has_key(twinned(f, n), crate::text::camel(f[k].0)),
        crate::json::value_at(twinned(f, n), crate::text::camel(f[k].0))
            == crate::json::camel_view(f[k].1),
    decreases n,
{
    let twin = crate::text::camel(f[k].0);
    let rest = twinned(f, (n - 1) as nat);
    let last = crate::text::camel(f[n - 1].0);
    let value = crate::json::camel_view(f[n - 1].1);
    if k == n - 1 {
        if crate::json::has_key(rest, twin) {
            lemma_twin_keys(f, (n - 1) as nat, twin);
        }
        crate::json::a_key_that_was_set_is_found(rest, twin, value);
    } else {
        a_twin_has_the_value_of_its_field(f, (n - 1) as nat, k);
        if !crate::json::has_key(rest, last) {
            crate::json::setting_a_key_keeps_the_others(rest, last, value, twin);
        }
    }
}

/// What is added to a battle that ends: the gap at its end, and how long it lasted, from
/// its beginning to the event.
pub proof fn a_broken_battle_tells_how_long_it_lasted(
    f: Fields,
    event: RaceEvent,
    frame: TelemetryFrame,
    roster: Map<u8, CarRefView>,
)
    requires
        event is BattleBroken,
        event->BattleBroken_engagement_started_at_session_time_s >= 0,
    ensures
        ({
            let g = enriched(f, event, frame, roster);
            let started = event->BattleBroken_engagement_started_at_session_time_s;
            let ended = event->BattleBroken_session_time;
            let lasted = crate::json::value_at(g, "engagementDurationSec"@);
            &&& crate::json::has_key(g, "engagementDurationSec"@)
            &&& lasted is Decimal
            &&& ended >= started ==> started + lasted->Decimal_0 == ended
            &&& ended < started ==> lasted->Decimal_0 == 0
            &&& crate::json::has_key(g, "finalGapSec"@)
            &&& crate::json::value_at(g, "finalGapSec"@) == crate::payload::opt_decimal_view(
                event->BattleBroken_final_gap_sec,
            )
        }),
{
    reveal_strlit("engagementDurationSec");
    reveal_strlit("finalGapSec");
    let a = with_battle_cars(
        f,
        frame,
        event->BattleBroken_player_car_idx,
        event->BattleBroken_opponent_car_idx,
        roster,
    );
    let gap = crate::payload::opt_decimal_view(event->BattleBroken_final_gap_sec);
    let lasted = JsonView::Decimal(
        duration_of(
            event->BattleBroken_engagement_started_at_session_time_s,
            event->BattleBroken_session_time,
        ),
    );
    let b = crate::json::with_key(a, "finalGapSec"@, gap);
    assert("engagementDurationSec"@.len() == 21 && "finalGapSec"@.len() == 11);
    crate::json::a_key_that_was_set_is_found(a, "finalGapSec"@, gap);
    crate::json::a_key_that_was_set_is_found(b, "engagementDurationSec"@, lasted);
    crate::json::setting_a_key_keeps_the_others(
        b,
        "engagementDurationSec"@,
        lasted,
        "finalGapSec"@,
    );
}

/// What is added to a battle that begins: the gap, and since when it is on.
pub proof fn a_battle_tells_its_gap_and_its_beginning(
    f: Fields,
    event: RaceEvent,
    frame: TelemetryFrame,
    roster: Map<u8, CarRefView>,
)
    requires
        event is BattleEngaged,
        event->BattleEngaged_gap_s < i64::MAX,
    ensures
        ({
            let g = enriched(f, event, frame, roster);
            &&& crate::json::has_key(g, "engagementGapSec"@)
            &&& crate::json::value_at(g, "engagementGapSec"@) == JsonView::Decimal(
                event->BattleEngaged_gap_s,
            )
            &&& crate::json::has_key(g, "engagementStartedAtSessionTime"@)
            &&& crate::json::value_at(g, "engagementStartedAtSessionTime"@) == JsonView::Decimal(
                event->BattleEngaged_engagement_started_at_session_time_s,
            )
        }),
{
    reveal_strlit("engagementGapSec");
    reveal_strlit("engagementStartedAtSessionTime");
    let a = with_battle_cars(
        f,
        frame,
        event->BattleEngaged_player_car_idx,
        event->BattleEngaged_opponent_car_idx,
        roster,
    );
    let gap = gap_or_null(event->BattleEngaged_gap_s);
    let since = JsonView::Decimal(event->BattleEngaged_engagement_started_at_session_time_s);
    let b = crate::json::with_key(a, "engagementGapSec"@, gap);
    assert("engagementGapSec"@.len() == 16 && "engagementStartedAtSessionTime"@.len() == 30);
    crate::json::a_key_that_was_set_is_found(a, "engagementGapSec"@, gap);
    crate::json::a_key_that_was_set_is_found(b, "engagementStartedAtSessionTime"@, since);
    crate::json::setting_a_key_keeps_the_others(
        b,
        "engagementStartedAtSessionTime"@,
        since,
        "engagementGapSec"@,
    );
}

/// What is added to won positions: the car that wins them, and the one that loses where it
/// is known.
pub proof fn an_overtake_names_both_cars(
    f: Fields,
    car_idx: u8,
    overtaken: u8,
    roster: Map<u8, CarRefView>,
)
    ensures
        ({
            let g = with_overtake_cars(f, car_idx, Some(overtaken), roster);
            &&& crate::json::has_key(g, "overtakingCar"@)
            &&& crate::json::value_at(g, "overtakingCar"@) == car_ref(car_idx, roster)
            &&& crate::json::has_key(g, "overtakenCar"@)
            &&& crate::json::value_at(g, "overtakenCar"@) == car_ref(overtaken, roster)
        }),
{
    reveal_strlit("overtakingCar");
    reveal_strlit("overtakenCar");
    let winner = car_ref(car_idx, roster);
    let loser = car_ref(overtaken, roster);
    let a = crate::json::with_key(f, "overtakingCar"@, winner);
    assert("overtakingCar"@.len() == 13 && "overtakenCar"@.len() == 12);
    crate::json::a_key_that_was_set_is_found(f, "overtakingCar"@, winner);
    crate::json::a_key_that_was_set_is_found(a, "overtakenCar"@, loser);
    crate::json::setting_a_key_keeps_the_others(a, "overtakenCar"@, loser, "overtakingCar"@);
}

} // verus!
