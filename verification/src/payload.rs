//! The fields that each event carries on the wire.

use vstd::prelude::*;
use vstd::string::*;

use crate::battle_state::SlopeInfo;
use crate::fixed::Micro;
use crate::json::{Fields, Json, JsonView, Record};
use crate::race_event::{FlagScope, LifecycleOrigin, RaceEvent};

verus! {

/// A number that may be absent.
pub open spec fn opt_u8_view(x: Option<u8>) -> JsonView {
    match x {
        Some(n) => JsonView::Int(n as int),
        None => JsonView::Null,
    }
}

/// A number that may be absent.
pub fn opt_u8(x: Option<u8>) -> (r: Json)
    ensures
        r@ == opt_u8_view(x),
{
    match x {
        Some(n) => Json::Int(n as i128),
        None => Json::Null,
    }
}

/// A number that may be absent.
pub open spec fn opt_u32_view(x: Option<u32>) -> JsonView {
    match x {
        Some(n) => JsonView::Int(n as int),
        None => JsonView::Null,
    }
}

/// A number that may be absent.
pub fn opt_u32(x: Option<u32>) -> (r: Json)
    ensures
        r@ == opt_u32_view(x),
{
    match x {
        Some(n) => Json::Int(n as i128),
        None => Json::Null,
    }
}

/// A number that may be absent.
pub open spec fn opt_i32_view(x: Option<i32>) -> JsonView {
    match x {
        Some(n) => JsonView::Int(n as int),
        None => JsonView::Null,
    }
}

/// A number that may be absent.
pub fn opt_i32(x: Option<i32>) -> (r: Json)
    ensures
        r@ == opt_i32_view(x),
{
    match x {
        Some(n) => Json::Int(n as i128),
        None => Json::Null,
    }
}

/// A number that may be absent.
pub open spec fn opt_i64_view(x: Option<i64>) -> JsonView {
    match x {
        Some(n) => JsonView::Int(n as int),
        None => JsonView::Null,
    }
}

/// A number that may be absent.
pub fn opt_i64(x: Option<i64>) -> (r: Json)
    ensures
        r@ == opt_i64_view(x),
{
    match x {
        Some(n) => Json::Int(n as i128),
        None => Json::Null,
    }
}

/// A decimal that may be absent.
pub open spec fn opt_decimal_view(x: Option<Micro>) -> JsonView {
    match x {
        Some(n) => JsonView::Decimal(n),
        None => JsonView::Null,
    }
}

/// A decimal that may be absent.
pub fn opt_decimal(x: Option<Micro>) -> (r: Json)
    ensures
        r@ == opt_decimal_view(x),
{
    match x {
        Some(n) => Json::Decimal(n),
        None => Json::Null,
    }
}

/// A text that may be absent.
pub open spec fn opt_text_view(x: Option<String>) -> JsonView {
    match x {
        Some(t) => JsonView::Text(t@),
        None => JsonView::Null,
    }
}

/// A text that may be absent.
pub fn opt_text(x: &Option<String>) -> (r: Json)
    ensures
        r@ == opt_text_view(*x),
{
    match x {
        Some(t) => Json::Text(t.clone()),
        None => Json::Null,
    }
}

/// Car indices as a list.
pub open spec fn indices_view(s: Seq<u8>) -> JsonView {
    JsonView::List(Seq::new(s.len(), |i: int| JsonView::Int(s[i] as int)))
}

/// Car indices as a list.
pub fn indices(v: &Vec<u8>) -> (r: Json)
    ensures
        r@ == indices_view(v@),
{
    let mut out: Vec<Json> = Vec::new();
    let mut i: usize = 0;
    while i < v.len()
        invariant
            i <= v@.len(),
            out@.len() == i,
            forall|k: int| 0 <= k < i ==> (#[trigger] out@[k])@ == JsonView::Int(v@[k] as int),
        decreases v.len() - i,
    {
        out.push(Json::Int(v[i] as i128));
        i = i + 1;
    }
    assert(crate::json::list_view(out@) =~= Seq::new(
        v@.len(),
        |i: int| JsonView::Int(v@[i] as int),
    ));
    Json::List(out)
}

/// Slope metadata as an object.
pub open spec fn slope_view(s: SlopeInfo) -> JsonView {
    JsonView::Object(
        seq![
            ("median_slope"@, JsonView::Decimal(s.median_slope)),
            ("anchors_qualifying"@, JsonView::Int(s.anchors_qualifying as int)),
            ("anchors_agreeing"@, JsonView::Int(s.anchors_agreeing as int)),
            ("hotspot_lap_dist_pct"@, JsonView::Decimal(s.hotspot_lap_dist_pct)),
        ],
    )
}

/// Slope metadata as an object.
pub fn slope_json(s: &SlopeInfo) -> (r: Json)
    ensures
        r@ == slope_view(*s),
{
    let mut f: Record = Record::new();
    f.push("median_slope", Json::Decimal(s.median_slope));
    f.push("anchors_qualifying", Json::Int(s.anchors_qualifying as i128));
    f.push("anchors_agreeing", Json::Int(s.anchors_agreeing as i128));
    f.push("hotspot_lap_dist_pct", Json::Decimal(s.hotspot_lap_dist_pct));
    assert(f@ =~= slope_view(*s)->Object_0);
    f.into_json()
}

/// Wire name of a flag's scope.
pub open spec fn flag_scope_name(s: FlagScope) -> &'static str {
    match s {
        FlagScope::SelfCaused => "SelfCaused",
        FlagScope::Nearby => "Nearby",
        FlagScope::SessionWide => "SessionWide",
        FlagScope::Unknown => "Unknown",
    }
}

/// Wire name of a flag's scope.
pub fn flag_scope_text(s: FlagScope) -> (r: &'static str)
    ensures
        r == flag_scope_name(s),
{
    match s {
        FlagScope::SelfCaused => "SelfCaused",
        FlagScope::Nearby => "Nearby",
        FlagScope::SessionWide => "SessionWide",
        FlagScope::Unknown => "Unknown",
    }
}

/// Wire name of a lifecycle event's origin.
pub open spec fn origin_name(o: LifecycleOrigin) -> &'static str {
    match o {
        LifecycleOrigin::SessionStateTransition => "SESSION_STATE_TRANSITION",
        LifecycleOrigin::ConnectSnapshot => "CONNECT_SNAPSHOT",
    }
}

/// Wire name of a lifecycle event's origin.
pub fn origin_text(o: LifecycleOrigin) -> (r: &'static str)
    ensures
        r == origin_name(o),
{
    match o {
        LifecycleOrigin::SessionStateTransition => "SESSION_STATE_TRANSITION",
        LifecycleOrigin::ConnectSnapshot => "CONNECT_SNAPSHOT",
    }
}

/// The fields of an event under their own names, the type left out.
pub open spec fn event_fields(event: RaceEvent) -> Fields {
    match event {
        RaceEvent::BattleEngaged { lap, session_time, player_car_idx, opponent_car_idx, gap_s, car_race_position, prior_skirmishes, prior_attack_time_s, engagement_started_at_session_time_s } => seq![
            ("lap"@, JsonView::Int(lap as int)),
            ("session_time"@, JsonView::Decimal(session_time)),
            ("player_car_idx"@, JsonView::Int(player_car_idx as int)),
            ("opponent_car_idx"@, JsonView::Int(opponent_car_idx as int)),
            ("gap_s"@, JsonView::Decimal(gap_s)),
            ("car_race_position"@, JsonView::Int(car_race_position as int)),
            ("prior_skirmishes"@, JsonView::Int(prior_skirmishes as int)),
            ("prior_attack_time_s"@, JsonView::Decimal(prior_attack_time_s)),
            ("engagement_started_at_session_time_s"@, JsonView::Decimal(engagement_started_at_session_time_s)),
        ],
        RaceEvent::BattleBroken { lap, session_time, player_car_idx, opponent_car_idx, final_gap_sec, car_race_position, engagement_started_at_session_time_s } => seq![
            ("lap"@, JsonView::Int(lap as int)),
            ("session_time"@, JsonView::Decimal(session_time)),
            ("player_car_idx"@, JsonView::Int(player_car_idx as int)),
            ("opponent_car_idx"@, JsonView::Int(opponent_car_idx as int)),
            ("final_gap_sec"@, opt_decimal_view(final_gap_sec)),
            ("car_race_position"@, JsonView::Int(car_race_position as int)),
            ("engagement_started_at_session_time_s"@, JsonView::Decimal(engagement_started_at_session_time_s)),
        ],
        RaceEvent::BattleClosing { lap, session_time, player_car_idx, opponent_car_idx, car_race_position, closing_rate_sec_per_lap, slope_info, prior_skirmishes, prior_attack_time_s } => seq![
            ("lap"@, JsonView::Int(lap as int)),
            ("session_time"@, JsonView::Decimal(session_time)),
            ("player_car_idx"@, JsonView::Int(player_car_idx as int)),
            ("opponent_car_idx"@, JsonView::Int(opponent_car_idx as int)),
            ("car_race_position"@, JsonView::Int(car_race_position as int)),
            ("closing_rate_sec_per_lap"@, JsonView::Decimal(closing_rate_sec_per_lap)),
            ("slope_info"@, slope_view(slope_info)),
            ("prior_skirmishes"@, JsonView::Int(prior_skirmishes as int)),
            ("prior_attack_time_s"@, JsonView::Decimal(prior_attack_time_s)),
        ],
        RaceEvent::HorizonClosing { lap, session_time, attacker_car_idx, defender_car_idx, attacker_position, defender_position, current_gap_s, closing_rate_sec_per_lap, estimated_laps_to_contact } => seq![
            ("lap"@, JsonView::Int(lap as int)),
            ("session_time"@, JsonView::Decimal(session_time)),
            ("attacker_car_idx"@, JsonView::Int(attacker_car_idx as int)),
            ("defender_car_idx"@, JsonView::Int(defender_car_idx as int)),
            ("attacker_position"@, JsonView::Int(attacker_position as int)),
            ("defender_position"@, JsonView::Int(defender_position as int)),
            ("current_gap_s"@, JsonView::Decimal(current_gap_s)),
            ("closing_rate_sec_per_lap"@, JsonView::Decimal(closing_rate_sec_per_lap)),
            ("estimated_laps_to_contact"@, JsonView::Int(estimated_laps_to_contact as int)),
        ],
        RaceEvent::HorizonClosingResolved { lap, session_time, attacker_car_idx, defender_car_idx } => seq![
            ("lap"@, JsonView::Int(lap as int)),
            ("session_time"@, JsonView::Decimal(session_time)),
            ("attacker_car_idx"@, JsonView::Int(attacker_car_idx as int)),
            ("defender_car_idx"@, JsonView::Int(defender_car_idx as int)),
        ],
        RaceEvent::RaceGreen { lap, session_time, synthetic, origin } => seq![
            ("lap"@, JsonView::Int(lap as int)),
            ("session_time"@, JsonView::Decimal(session_time)),
            ("synthetic"@, JsonView::Bool(synthetic)),
            ("origin"@, JsonView::Text(origin_name(origin)@)),
        ],
        RaceEvent::FlagYellowFullCourse { lap, session_time } => seq![
            ("lap"@, JsonView::Int(lap as int)),
            ("session_time"@, JsonView::Decimal(session_time)),
        ],
        RaceEvent::FlagYellowLocal { lap, session_time, trigger_car_idx, lap_dist_pct, sector, scope, linked_incident_id } => seq![
            ("lap"@, JsonView::Int(lap as int)),
            ("session_time"@, JsonView::Decimal(session_time)),
            ("trigger_car_idx"@, opt_u8_view(trigger_car_idx)),
            ("lap_dist_pct"@, opt_decimal_view(lap_dist_pct)),
            ("sector"@, opt_u8_view(sector)),
            ("scope"@, JsonView::Text(flag_scope_name(scope)@)),
            ("linked_incident_id"@, opt_u32_view(linked_incident_id)),
        ],
        RaceEvent::RaceCheckered { lap, session_time, synthetic, origin } => seq![
            ("lap"@, JsonView::Int(lap as int)),
            ("session_time"@, JsonView::Decimal(session_time)),
            ("synthetic"@, JsonView::Bool(synthetic)),
            ("origin"@, JsonView::Text(origin_name(origin)@)),
        ],
        RaceEvent::IracingConnected { lap, session_time } => seq![
            ("lap"@, JsonView::Int(lap as int)),
            ("session_time"@, JsonView::Decimal(session_time)),
        ],
        RaceEvent::IracingDisconnected { lap, session_time } => seq![
            ("lap"@, JsonView::Int(lap as int)),
            ("session_time"@, JsonView::Decimal(session_time)),
        ],
        RaceEvent::DriverEnteredCar { lap, session_time, player_car_idx } => seq![
            ("lap"@, JsonView::Int(lap as int)),
            ("session_time"@, JsonView::Decimal(session_time)),
            ("player_car_idx"@, JsonView::Int(player_car_idx as int)),
        ],
        RaceEvent::DriverExitedCar { lap, session_time, player_car_idx } => seq![
            ("lap"@, JsonView::Int(lap as int)),
            ("session_time"@, JsonView::Decimal(session_time)),
            ("player_car_idx"@, JsonView::Int(player_car_idx as int)),
        ],
        RaceEvent::Overtake { lap, session_time, car_idx, overtaken_car_idx, position_from, position_to, positions_gained } => seq![
            ("lap"@, JsonView::Int(lap as int)),
            ("session_time"@, JsonView::Decimal(session_time)),
            ("car_idx"@, JsonView::Int(car_idx as int)),
            ("overtaken_car_idx"@, opt_u8_view(overtaken_car_idx)),
            ("position_from"@, JsonView::Int(position_from as int)),
            ("position_to"@, JsonView::Int(position_to as int)),
            ("positions_gained"@, JsonView::Int(positions_gained as int)),
        ],
        RaceEvent::OvertakeForLead { lap, session_time, car_idx, overtaken_car_idx, position_from, positions_gained } => seq![
            ("lap"@, JsonView::Int(lap as int)),
            ("session_time"@, JsonView::Decimal(session_time)),
            ("car_idx"@, JsonView::Int(car_idx as int)),
            ("overtaken_car_idx"@, opt_u8_view(overtaken_car_idx)),
            ("position_from"@, JsonView::Int(position_from as int)),
            ("positions_gained"@, JsonView::Int(positions_gained as int)),
        ],
        RaceEvent::LapCompleted { lap, session_time, player_car_idx, lap_time_s, best_lap_time_s, position, pit_frames } => seq![
            ("lap"@, JsonView::Int(lap as int)),
            ("session_time"@, JsonView::Decimal(session_time)),
            ("player_car_idx"@, JsonView::Int(player_car_idx as int)),
            ("lap_time_s"@, opt_decimal_view(lap_time_s)),
            ("best_lap_time_s"@, opt_decimal_view(best_lap_time_s)),
            ("position"@, JsonView::Int(position as int)),
            ("pit_frames"@, JsonView::Int(pit_frames as int)),
        ],
        RaceEvent::PitEntry { lap, session_time, player_car_idx, position } => seq![
            ("lap"@, JsonView::Int(lap as int)),
            ("session_time"@, JsonView::Decimal(session_time)),
            ("player_car_idx"@, JsonView::Int(player_car_idx as int)),
            ("position"@, JsonView::Int(position as int)),
        ],
        RaceEvent::PitExit { lap, session_time, player_car_idx, position } => seq![
            ("lap"@, JsonView::Int(lap as int)),
            ("session_time"@, JsonView::Decimal(session_time)),
            ("player_car_idx"@, JsonView::Int(player_car_idx as int)),
            ("position"@, JsonView::Int(position as int)),
        ],
        RaceEvent::TireDegradation { lap, session_time, lf_temp_c, rf_temp_c, lr_temp_c, rr_temp_c, lf_slope_c_per_min, rf_slope_c_per_min, lr_slope_c_per_min, rr_slope_c_per_min, hottest_corner } => seq![
            ("lap"@, JsonView::Int(lap as int)),
            ("session_time"@, JsonView::Decimal(session_time)),
            ("lf_temp_c"@, JsonView::Decimal(lf_temp_c)),
            ("rf_temp_c"@, JsonView::Decimal(rf_temp_c)),
            ("lr_temp_c"@, JsonView::Decimal(lr_temp_c)),
            ("rr_temp_c"@, JsonView::Decimal(rr_temp_c)),
            ("lf_slope_c_per_min"@, JsonView::Decimal(lf_slope_c_per_min)),
            ("rf_slope_c_per_min"@, JsonView::Decimal(rf_slope_c_per_min)),
            ("lr_slope_c_per_min"@, JsonView::Decimal(lr_slope_c_per_min)),
            ("rr_slope_c_per_min"@, JsonView::Decimal(rr_slope_c_per_min)),
            ("hottest_corner"@, JsonView::Text(hottest_corner@)),
        ],
        RaceEvent::FuelProjection { lap, session_time, fuel_remaining_l, fuel_per_lap_l, laps_remaining, is_provisional } => seq![
            ("lap"@, JsonView::Int(lap as int)),
            ("session_time"@, JsonView::Decimal(session_time)),
            ("fuel_remaining_l"@, JsonView::Decimal(fuel_remaining_l)),
            ("fuel_per_lap_l"@, JsonView::Decimal(fuel_per_lap_l)),
            ("laps_remaining"@, JsonView::Decimal(laps_remaining)),
            ("is_provisional"@, JsonView::Bool(is_provisional)),
        ],
        RaceEvent::FuelSavingTechnique { lap, session_time, coast_duration_s, coast_start_lap_dist_pct, coast_start_speed_mps } => seq![
            ("lap"@, JsonView::Int(lap as int)),
            ("session_time"@, JsonView::Decimal(session_time)),
            ("coast_duration_s"@, JsonView::Decimal(coast_duration_s)),
            ("coast_start_lap_dist_pct"@, JsonView::Decimal(coast_start_lap_dist_pct)),
            ("coast_start_speed_mps"@, JsonView::Decimal(coast_start_speed_mps)),
        ],
        RaceEvent::IncidentAlert { lap, session_time, car_idx, driver_incident_count, previous_track_surface, current_track_surface, previous_speed_mps, current_speed_mps, speed_drop_mps, severity, severity_normalized, incident_count_delta, reason } => seq![
            ("lap"@, JsonView::Int(lap as int)),
            ("session_time"@, JsonView::Decimal(session_time)),
            ("car_idx"@, JsonView::Int(car_idx as int)),
            ("driver_incident_count"@, opt_i32_view(driver_incident_count)),
            ("previous_track_surface"@, JsonView::Int(previous_track_surface as int)),
            ("current_track_surface"@, JsonView::Int(current_track_surface as int)),
            ("previous_speed_mps"@, JsonView::Decimal(previous_speed_mps)),
            ("current_speed_mps"@, JsonView::Decimal(current_speed_mps)),
            ("speed_drop_mps"@, JsonView::Decimal(speed_drop_mps)),
            ("severity"@, JsonView::Decimal(severity)),
            ("severity_normalized"@, JsonView::Decimal(severity_normalized)),
            ("incident_count_delta"@, opt_i32_view(incident_count_delta)),
            ("reason"@, JsonView::Text(reason@)),
        ],
        RaceEvent::MicroSectorGain { lap, session_time, bucket_from, bucket_to, lap_dist_pct_from, lap_dist_pct_to, cumulative_delta_s, technique_hint } => seq![
            ("lap"@, JsonView::Int(lap as int)),
            ("session_time"@, JsonView::Decimal(session_time)),
            ("bucket_from"@, JsonView::Int(bucket_from as int)),
            ("bucket_to"@, JsonView::Int(bucket_to as int)),
            ("lap_dist_pct_from"@, JsonView::Decimal(lap_dist_pct_from)),
            ("lap_dist_pct_to"@, JsonView::Decimal(lap_dist_pct_to)),
            ("cumulative_delta_s"@, JsonView::Decimal(cumulative_delta_s)),
            ("technique_hint"@, JsonView::Text(technique_hint@)),
        ],
        RaceEvent::MicroSectorLoss { lap, session_time, bucket_from, bucket_to, lap_dist_pct_from, lap_dist_pct_to, cumulative_delta_s } => seq![
            ("lap"@, JsonView::Int(lap as int)),
            ("session_time"@, JsonView::Decimal(session_time)),
            ("bucket_from"@, JsonView::Int(bucket_from as int)),
            ("bucket_to"@, JsonView::Int(bucket_to as int)),
            ("lap_dist_pct_from"@, JsonView::Decimal(lap_dist_pct_from)),
            ("lap_dist_pct_to"@, JsonView::Decimal(lap_dist_pct_to)),
            ("cumulative_delta_s"@, JsonView::Decimal(cumulative_delta_s)),
        ],
        RaceEvent::BrakingProfile { lap, session_time, anchor_bucket, brake_point_pct, brake_release_pct, peak_brake_pct, braking_energy, entry_speed_mps, min_speed_mps, throttle_release_pct } => seq![
            ("lap"@, JsonView::Int(lap as int)),
            ("session_time"@, JsonView::Decimal(session_time)),
            ("anchor_bucket"@, JsonView::Int(anchor_bucket as int)),
            ("brake_point_pct"@, JsonView::Decimal(brake_point_pct)),
            ("brake_release_pct"@, JsonView::Decimal(brake_release_pct)),
            ("peak_brake_pct"@, JsonView::Decimal(peak_brake_pct)),
            ("braking_energy"@, JsonView::Decimal(braking_energy)),
            ("entry_speed_mps"@, JsonView::Decimal(entry_speed_mps)),
            ("min_speed_mps"@, JsonView::Decimal(min_speed_mps)),
            ("throttle_release_pct"@, JsonView::Decimal(throttle_release_pct)),
        ],
        RaceEvent::TrafficIntercept { lap, session_time, leader_car_idx, traffic_car_idx, cross_class, distance_m, relative_speed_mps, time_to_intercept_s, intercept_bucket, intercept_lap_dist_pct, predicted_intercept_session_time } => seq![
            ("lap"@, JsonView::Int(lap as int)),
            ("session_time"@, JsonView::Decimal(session_time)),
            ("leader_car_idx"@, JsonView::Int(leader_car_idx as int)),
            ("traffic_car_idx"@, JsonView::Int(traffic_car_idx as int)),
            ("cross_class"@, JsonView::Bool(cross_class)),
            ("distance_m"@, JsonView::Decimal(distance_m)),
            ("relative_speed_mps"@, JsonView::Decimal(relative_speed_mps)),
            ("time_to_intercept_s"@, JsonView::Decimal(time_to_intercept_s)),
            ("intercept_bucket"@, JsonView::Int(intercept_bucket as int)),
            ("intercept_lap_dist_pct"@, JsonView::Decimal(intercept_lap_dist_pct)),
            ("predicted_intercept_session_time"@, JsonView::Decimal(predicted_intercept_session_time)),
        ],
        RaceEvent::VulnerabilityAlert { lap, session_time, vulnerability, defender_idx, attacker_idx, tire_contribution, closing_contribution, proximity_contribution, fuel_contribution } => seq![
            ("lap"@, JsonView::Int(lap as int)),
            ("session_time"@, JsonView::Decimal(session_time)),
            ("vulnerability"@, JsonView::Decimal(vulnerability)),
            ("defender_idx"@, JsonView::Int(defender_idx as int)),
            ("attacker_idx"@, JsonView::Int(attacker_idx as int)),
            ("tire_contribution"@, JsonView::Decimal(tire_contribution)),
            ("closing_contribution"@, JsonView::Decimal(closing_contribution)),
            ("proximity_contribution"@, JsonView::Decimal(proximity_contribution)),
            ("fuel_contribution"@, JsonView::Decimal(fuel_contribution)),
        ],
        RaceEvent::VulnerabilityResolved { lap, session_time, defender_idx, attacker_idx } => seq![
            ("lap"@, JsonView::Int(lap as int)),
            ("session_time"@, JsonView::Decimal(session_time)),
            ("defender_idx"@, JsonView::Int(defender_idx as int)),
            ("attacker_idx"@, JsonView::Int(attacker_idx as int)),
        ],
        RaceEvent::IncidentCluster { lap, session_time, bucket, lap_dist_pct_from, lap_dist_pct_to, car_idxs, severity, primary_car_idx, incident_type } => seq![
            ("lap"@, JsonView::Int(lap as int)),
            ("session_time"@, JsonView::Decimal(session_time)),
            ("bucket"@, JsonView::Int(bucket as int)),
            ("lap_dist_pct_from"@, JsonView::Decimal(lap_dist_pct_from)),
            ("lap_dist_pct_to"@, JsonView::Decimal(lap_dist_pct_to)),
            ("car_idxs"@, indices_view(car_idxs@)),
            ("severity"@, JsonView::Decimal(severity)),
            ("primary_car_idx"@, opt_u8_view(primary_car_idx)),
            ("incident_type"@, opt_text_view(incident_type)),
        ],
        RaceEvent::IncidentClusterResolved { lap, session_time, bucket } => seq![
            ("lap"@, JsonView::Int(lap as int)),
            ("session_time"@, JsonView::Decimal(session_time)),
            ("bucket"@, JsonView::Int(bucket as int)),
        ],
        RaceEvent::TrafficCompressionZone { lap, session_time, battle_attacker_idx, battle_defender_idx, window_start_pct, window_end_pct, traffic_car_idxs, compression_score, first_intercept_car_idx, first_intercept_time_s, first_intercept_bucket } => seq![
            ("lap"@, JsonView::Int(lap as int)),
            ("session_time"@, JsonView::Decimal(session_time)),
            ("battle_attacker_idx"@, JsonView::Int(battle_attacker_idx as int)),
            ("battle_defender_idx"@, JsonView::Int(battle_defender_idx as int)),
            ("window_start_pct"@, JsonView::Decimal(window_start_pct)),
            ("window_end_pct"@, JsonView::Decimal(window_end_pct)),
            ("traffic_car_idxs"@, indices_view(traffic_car_idxs@)),
            ("compression_score"@, JsonView::Int(compression_score as int)),
            ("first_intercept_car_idx"@, JsonView::Int(first_intercept_car_idx as int)),
            ("first_intercept_time_s"@, JsonView::Decimal(first_intercept_time_s)),
            ("first_intercept_bucket"@, JsonView::Int(first_intercept_bucket as int)),
        ],
        RaceEvent::PublisherHello { lap, session_time, version, scope } => seq![
            ("lap"@, JsonView::Int(lap as int)),
            ("session_time"@, JsonView::Decimal(session_time)),
            ("version"@, JsonView::Text(version@)),
            ("scope"@, JsonView::Text(scope@)),
        ],
        RaceEvent::PublisherGoodbye { lap, session_time, reason, previous_sub_session_id } => seq![
            ("lap"@, JsonView::Int(lap as int)),
            ("session_time"@, JsonView::Decimal(session_time)),
            ("reason"@, JsonView::Text(reason@)),
            ("previous_sub_session_id"@, opt_i64_view(previous_sub_session_id)),
        ],
        RaceEvent::PublisherHeartbeat { lap, session_time, version, events_enqueued_total } => seq![
            ("lap"@, JsonView::Int(lap as int)),
            ("session_time"@, JsonView::Decimal(session_time)),
            ("version"@, JsonView::Text(version@)),
            ("events_enqueued_total"@, JsonView::Int(events_enqueued_total as int)),
        ],
        RaceEvent::FocusMeRequested { lap, session_time, player_car_idx, request_id, press_seq, driver_id, rig_id, source, button, requested_at_ms, dwell_ms } => seq![
            ("lap"@, JsonView::Int(lap as int)),
            ("session_time"@, JsonView::Decimal(session_time)),
            ("player_car_idx"@, JsonView::Int(player_car_idx as int)),
            ("request_id"@, JsonView::Text(request_id@)),
            ("press_seq"@, JsonView::Int(press_seq as int)),
            ("driver_id"@, JsonView::Text(driver_id@)),
            ("rig_id"@, JsonView::Text(rig_id@)),
            ("source"@, JsonView::Text(source@)),
            ("button"@, JsonView::Int(button as int)),
            ("requested_at_ms"@, JsonView::Int(requested_at_ms as int)),
            ("dwell_ms"@, JsonView::Int(dwell_ms as int)),
        ],
        RaceEvent::DriverMaterial { lap, session_time, player_car_idx, position, laps_completed, lap_dist_pct, last_lap_time_s, best_lap_time_s, gap_ahead_s, car_ahead_idx, gap_behind_s, car_behind_idx, delta_to_best_s, sector_bucket, sector_delta_to_best_s, gap_ahead_trend, gap_behind_trend, effort, on_pit_road, track_surface, speed_mps, fuel_level_l, incident_count, session_state, interval_s } => seq![
            ("lap"@, JsonView::Int(lap as int)),
            ("session_time"@, JsonView::Decimal(session_time)),
            ("player_car_idx"@, JsonView::Int(player_car_idx as int)),
            ("position"@, JsonView::Int(position as int)),
            ("laps_completed"@, JsonView::Int(laps_completed as int)),
            ("lap_dist_pct"@, JsonView::Decimal(lap_dist_pct)),
            ("last_lap_time_s"@, opt_decimal_view(last_lap_time_s)),
            ("best_lap_time_s"@, opt_decimal_view(best_lap_time_s)),
            ("gap_ahead_s"@, opt_decimal_view(gap_ahead_s)),
            ("car_ahead_idx"@, opt_u8_view(car_ahead_idx)),
            ("gap_behind_s"@, opt_decimal_view(gap_behind_s)),
            ("car_behind_idx"@, opt_u8_view(car_behind_idx)),
            ("delta_to_best_s"@, opt_decimal_view(delta_to_best_s)),
            ("sector_bucket"@, opt_u8_view(sector_bucket)),
            ("sector_delta_to_best_s"@, opt_decimal_view(sector_delta_to_best_s)),
            ("gap_ahead_trend"@, JsonView::Text(gap_ahead_trend@)),
            ("gap_behind_trend"@, JsonView::Text(gap_behind_trend@)),
            ("effort"@, JsonView::Text(effort@)),
            ("on_pit_road"@, JsonView::Bool(on_pit_road)),
            ("track_surface"@, JsonView::Int(track_surface as int)),
            ("speed_mps"@, JsonView::Decimal(speed_mps)),
            ("fuel_level_l"@, JsonView::Decimal(fuel_level_l)),
            ("incident_count"@, JsonView::Int(incident_count as int)),
            ("session_state"@, JsonView::Int(session_state as int)),
            ("interval_s"@, JsonView::Decimal(interval_s)),
        ],
        RaceEvent::SessionReset { lap, session_time, previous_sub_session_id, sub_session_id, previous_session_num, session_num, previous_session_time, reason } => seq![
            ("lap"@, JsonView::Int(lap as int)),
            ("session_time"@, JsonView::Decimal(session_time)),
            ("previous_sub_session_id"@, opt_i64_view(previous_sub_session_id)),
            ("sub_session_id"@, JsonView::Int(sub_session_id as int)),
            ("previous_session_num"@, opt_i32_view(previous_session_num)),
            ("session_num"@, JsonView::Int(session_num as int)),
            ("previous_session_time"@, opt_decimal_view(previous_session_time)),
            ("reason"@, JsonView::Text(reason@)),
        ],
        RaceEvent::BroadcastControlRequested { lap, session_time, action, request_id, press_seq, driver_id, rig_id, source, button, requested_at_ms } => seq![
            ("lap"@, JsonView::Int(lap as int)),
            ("session_time"@, JsonView::Decimal(session_time)),
            ("action"@, JsonView::Text(action@)),
            ("request_id"@, JsonView::Text(request_id@)),
            ("press_seq"@, JsonView::Int(press_seq as int)),
            ("driver_id"@, JsonView::Text(driver_id@)),
            ("rig_id"@, JsonView::Text(rig_id@)),
            ("source"@, JsonView::Text(source@)),
            ("button"@, JsonView::Int(button as int)),
            ("requested_at_ms"@, JsonView::Int(requested_at_ms as int)),
        ],
    }
}

/// The fields of an event under their own names, the type left out.
#[verifier::rlimit(40)]
pub fn fields_of(event: &RaceEvent) -> (r: Record)
    ensures
        r@ == event_fields(*event),
{
    let mut f: Record = Record::new();
    match event {
        RaceEvent::BattleEngaged { lap, session_time, player_car_idx, opponent_car_idx, gap_s, car_race_position, prior_skirmishes, prior_attack_time_s, engagement_started_at_session_time_s } => {
            f.push("lap", Json::Int(*lap as i128));
            f.push("session_time", Json::Decimal(*session_time));
            f.push("player_car_idx", Json::Int(*player_car_idx as i128));
            f.push("opponent_car_idx", Json::Int(*opponent_car_idx as i128));
            f.push("gap_s", Json::Decimal(*gap_s));
            f.push("car_race_position", Json::Int(*car_race_position as i128));
            f.push("prior_skirmishes", Json::Int(*prior_skirmishes as i128));
            f.push("prior_attack_time_s", Json::Decimal(*prior_attack_time_s));
            f.push("engagement_started_at_session_time_s", Json::Decimal(*engagement_started_at_session_time_s));
        },
        RaceEvent::BattleBroken { lap, session_time, player_car_idx, opponent_car_idx, final_gap_sec, car_race_position, engagement_started_at_session_time_s } => {
            f.push("lap", Json::Int(*lap as i128));
            f.push("session_time", Json::Decimal(*session_time));
            f.push("player_car_idx", Json::Int(*player_car_idx as i128));
            f.push("opponent_car_idx", Json::Int(*opponent_car_idx as i128));
            f.push("final_gap_sec", opt_decimal(*final_gap_sec));
            f.push("car_race_position", Json::Int(*car_race_position as i128));
            f.push("engagement_started_at_session_time_s", Json::Decimal(*engagement_started_at_session_time_s));
        },
        RaceEvent::BattleClosing { lap, session_time, player_car_idx, opponent_car_idx, car_race_position, closing_rate_sec_per_lap, slope_info, prior_skirmishes, prior_attack_time_s } => {
            f.push("lap", Json::Int(*lap as i128));
            f.push("session_time", Json::Decimal(*session_time));
            f.push("player_car_idx", Json::Int(*player_car_idx as i128));
            f.push("opponent_car_idx", Json::Int(*opponent_car_idx as i128));
            f.push("car_race_position", Json::Int(*car_race_position as i128));
            f.push("closing_rate_sec_per_lap", Json::Decimal(*closing_rate_sec_per_lap));
            f.push("slope_info", slope_json(slope_info));
            f.push("prior_skirmishes", Json::Int(*prior_skirmishes as i128));
            f.push("prior_attack_time_s", Json::Decimal(*prior_attack_time_s));
        },
        RaceEvent::HorizonClosing { lap, session_time, attacker_car_idx, defender_car_idx, attacker_position, defender_position, current_gap_s, closing_rate_sec_per_lap, estimated_laps_to_contact } => {
            f.push("lap", Json::Int(*lap as i128));
            f.push("session_time", Json::Decimal(*session_time));
            f.push("attacker_car_idx", Json::Int(*attacker_car_idx as i128));
            f.push("defender_car_idx", Json::Int(*defender_car_idx as i128));
            f.push("attacker_position", Json::Int(*attacker_position as i128));
            f.push("defender_position", Json::Int(*defender_position as i128));
            f.push("current_gap_s", Json::Decimal(*current_gap_s));
            f.push("closing_rate_sec_per_lap", Json::Decimal(*closing_rate_sec_per_lap));
            f.push("estimated_laps_to_contact", Json::Int(*estimated_laps_to_contact as i128));
        },
        RaceEvent::HorizonClosingResolved { lap, session_time, attacker_car_idx, defender_car_idx } => {
            f.push("lap", Json::Int(*lap as i128));
            f.push("session_time", Json::Decimal(*session_time));
            f.push("attacker_car_idx", Json::Int(*attacker_car_idx as i128));
            f.push("defender_car_idx", Json::Int(*defender_car_idx as i128));
        },
        RaceEvent::RaceGreen { lap, session_time, synthetic, origin } => {
            f.push("lap", Json::Int(*lap as i128));
            f.push("session_time", Json::Decimal(*session_time));
            f.push("synthetic", Json::Bool(*synthetic));
            f.push("origin", Json::Text(origin_text(*origin).to_owned()));
        },
        RaceEvent::FlagYellowFullCourse { lap, session_time } => {
            f.push("lap", Json::Int(*lap as i128));
            f.push("session_time", Json::Decimal(*session_time));
        },
        RaceEvent::FlagYellowLocal { lap, session_time, trigger_car_idx, lap_dist_pct, sector, scope, linked_incident_id } => {
            f.push("lap", Json::Int(*lap as i128));
            f.push("session_time", Json::Decimal(*session_time));
            f.push("trigger_car_idx", opt_u8(*trigger_car_idx));
            f.push("lap_dist_pct", opt_decimal(*lap_dist_pct));
            f.push("sector", opt_u8(*sector));
            f.push("scope", Json::Text(flag_scope_text(*scope).to_owned()));
            f.push("linked_incident_id", opt_u32(*linked_incident_id));
        },
        RaceEvent::RaceCheckered { lap, session_time, synthetic, origin } => {
            f.push("lap", Json::Int(*lap as i128));
            f.push("session_time", Json::Decimal(*session_time));
            f.push("synthetic", Json::Bool(*synthetic));
            f.push("origin", Json::Text(origin_text(*origin).to_owned()));
        },
        RaceEvent::IracingConnected { lap, session_time } => {
            f.push("lap", Json::Int(*lap as i128));
            f.push("session_time", Json::Decimal(*session_time));
        },
        RaceEvent::IracingDisconnected { lap, session_time } => {
            f.push("lap", Json::Int(*lap as i128));
            f.push("session_time", Json::Decimal(*session_time));
        },
        RaceEvent::DriverEnteredCar { lap, session_time, player_car_idx } => {
            f.push("lap", Json::Int(*lap as i128));
            f.push("session_time", Json::Decimal(*session_time));
            f.push("player_car_idx", Json::Int(*player_car_idx as i128));
        },
        RaceEvent::DriverExitedCar { lap, session_time, player_car_idx } => {
            f.push("lap", Json::Int(*lap as i128));
            f.push("session_time", Json::Decimal(*session_time));
            f.push("player_car_idx", Json::Int(*player_car_idx as i128));
        },
        RaceEvent::Overtake { lap, session_time, car_idx, overtaken_car_idx, position_from, position_to, positions_gained } => {
            f.push("lap", Json::Int(*lap as i128));
            f.push("session_time", Json::Decimal(*session_time));
            f.push("car_idx", Json::Int(*car_idx as i128));
            f.push("overtaken_car_idx", opt_u8(*overtaken_car_idx));
            f.push("position_from", Json::Int(*position_from as i128));
            f.push("position_to", Json::Int(*position_to as i128));
            f.push("positions_gained", Json::Int(*positions_gained as i128));
        },
        RaceEvent::OvertakeForLead { lap, session_time, car_idx, overtaken_car_idx, position_from, positions_gained } => {
            f.push("lap", Json::Int(*lap as i128));
            f.push("session_time", Json::Decimal(*session_time));
            f.push("car_idx", Json::Int(*car_idx as i128));
            f.push("overtaken_car_idx", opt_u8(*overtaken_car_idx));
            f.push("position_from", Json::Int(*position_from as i128));
            f.push("positions_gained", Json::Int(*positions_gained as i128));
        },
        RaceEvent::LapCompleted { lap, session_time, player_car_idx, lap_time_s, best_lap_time_s, position, pit_frames } => {
            f.push("lap", Json::Int(*lap as i128));
            f.push("session_time", Json::Decimal(*session_time));
            f.push("player_car_idx", Json::Int(*player_car_idx as i128));
            f.push("lap_time_s", opt_decimal(*lap_time_s));
            f.push("best_lap_time_s", opt_decimal(*best_lap_time_s));
            f.push("position", Json::Int(*position as i128));
            f.push("pit_frames", Json::Int(*pit_frames as i128));
        },
        RaceEvent::PitEntry { lap, session_time, player_car_idx, position } => {
            f.push("lap", Json::Int(*lap as i128));
            f.push("session_time", Json::Decimal(*session_time));
            f.push("player_car_idx", Json::Int(*player_car_idx as i128));
            f.push("position", Json::Int(*position as i128));
        },
        RaceEvent::PitExit { lap, session_time, player_car_idx, position } => {
            f.push("lap", Json::Int(*lap as i128));
            f.push("session_time", Json::Decimal(*session_time));
            f.push("player_car_idx", Json::Int(*player_car_idx as i128));
            f.push("position", Json::Int(*position as i128));
        },
        RaceEvent::TireDegradation { lap, session_time, lf_temp_c, rf_temp_c, lr_temp_c, rr_temp_c, lf_slope_c_per_min, rf_slope_c_per_min, lr_slope_c_per_min, rr_slope_c_per_min, hottest_corner } => {
            f.push("lap", Json::Int(*lap as i128));
            f.push("session_time", Json::Decimal(*session_time));
            f.push("lf_temp_c", Json::Decimal(*lf_temp_c));
            f.push("rf_temp_c", Json::Decimal(*rf_temp_c));
            f.push("lr_temp_c", Json::Decimal(*lr_temp_c));
            f.push("rr_temp_c", Json::Decimal(*rr_temp_c));
            f.push("lf_slope_c_per_min", Json::Decimal(*lf_slope_c_per_min));
            f.push("rf_slope_c_per_min", Json::Decimal(*rf_slope_c_per_min));
            f.push("lr_slope_c_per_min", Json::Decimal(*lr_slope_c_per_min));
            f.push("rr_slope_c_per_min", Json::Decimal(*rr_slope_c_per_min));
            f.push("hottest_corner", Json::Text(hottest_corner.clone()));
        },
        RaceEvent::FuelProjection { lap, session_time, fuel_remaining_l, fuel_per_lap_l, laps_remaining, is_provisional } => {
            f.push("lap", Json::Int(*lap as i128));
            f.push("session_time", Json::Decimal(*session_time));
            f.push("fuel_remaining_l", Json::Decimal(*fuel_remaining_l));
            f.push("fuel_per_lap_l", Json::Decimal(*fuel_per_lap_l));
            f.push("laps_remaining", Json::Decimal(*laps_remaining));
            f.push("is_provisional", Json::Bool(*is_provisional));
        },
        RaceEvent::FuelSavingTechnique { lap, session_time, coast_duration_s, coast_start_lap_dist_pct, coast_start_speed_mps } => {
            f.push("lap", Json::Int(*lap as i128));
            f.push("session_time", Json::Decimal(*session_time));
            f.push("coast_duration_s", Json::Decimal(*coast_duration_s));
            f.push("coast_start_lap_dist_pct", Json::Decimal(*coast_start_lap_dist_pct));
            f.push("coast_start_speed_mps", Json::Decimal(*coast_start_speed_mps));
        },
        RaceEvent::IncidentAlert { lap, session_time, car_idx, driver_incident_count, previous_track_surface, current_track_surface, previous_speed_mps, current_speed_mps, speed_drop_mps, severity, severity_normalized, incident_count_delta, reason } => {
            f.push("lap", Json::Int(*lap as i128));
            f.push("session_time", Json::Decimal(*session_time));
            f.push("car_idx", Json::Int(*car_idx as i128));
            f.push("driver_incident_count", opt_i32(*driver_incident_count));
            f.push("previous_track_surface", Json::Int(*previous_track_surface as i128));
            f.push("current_track_surface", Json::Int(*current_track_surface as i128));
            f.push("previous_speed_mps", Json::Decimal(*previous_speed_mps));
            f.push("current_speed_mps", Json::Decimal(*current_speed_mps));
            f.push("speed_drop_mps", Json::Decimal(*speed_drop_mps));
            f.push("severity", Json::Decimal(*severity));
            f.push("severity_normalized", Json::Decimal(*severity_normalized));
            f.push("incident_count_delta", opt_i32(*incident_count_delta));
            f.push("reason", Json::Text((*reason).to_owned()));
        },
        RaceEvent::MicroSectorGain { lap, session_time, bucket_from, bucket_to, lap_dist_pct_from, lap_dist_pct_to, cumulative_delta_s, technique_hint } => {
            f.push("lap", Json::Int(*lap as i128));
            f.push("session_time", Json::Decimal(*session_time));
            f.push("bucket_from", Json::Int(*bucket_from as i128));
            f.push("bucket_to", Json::Int(*bucket_to as i128));
            f.push("lap_dist_pct_from", Json::Decimal(*lap_dist_pct_from));
            f.push("lap_dist_pct_to", Json::Decimal(*lap_dist_pct_to));
            f.push("cumulative_delta_s", Json::Decimal(*cumulative_delta_s));
            f.push("technique_hint", Json::Text((*technique_hint).to_owned()));
        },
        RaceEvent::MicroSectorLoss { lap, session_time, bucket_from, bucket_to, lap_dist_pct_from, lap_dist_pct_to, cumulative_delta_s } => {
            f.push("lap", Json::Int(*lap as i128));
            f.push("session_time", Json::Decimal(*session_time));
            f.push("bucket_from", Json::Int(*bucket_from as i128));
            f.push("bucket_to", Json::Int(*bucket_to as i128));
            f.push("lap_dist_pct_from", Json::Decimal(*lap_dist_pct_from));
            f.push("lap_dist_pct_to", Json::Decimal(*lap_dist_pct_to));
            f.push("cumulative_delta_s", Json::Decimal(*cumulative_delta_s));
        },
        RaceEvent::BrakingProfile { lap, session_time, anchor_bucket, brake_point_pct, brake_release_pct, peak_brake_pct, braking_energy, entry_speed_mps, min_speed_mps, throttle_release_pct } => {
            f.push("lap", Json::Int(*lap as i128));
            f.push("session_time", Json::Decimal(*session_time));
            f.push("anchor_bucket", Json::Int(*anchor_bucket as i128));
            f.push("brake_point_pct", Json::Decimal(*brake_point_pct));
            f.push("brake_release_pct", Json::Decimal(*brake_release_pct));
            f.push("peak_brake_pct", Json::Decimal(*peak_brake_pct));
            f.push("braking_energy", Json::Decimal(*braking_energy));
            f.push("entry_speed_mps", Json::Decimal(*entry_speed_mps));
            f.push("min_speed_mps", Json::Decimal(*min_speed_mps));
            f.push("throttle_release_pct", Json::Decimal(*throttle_release_pct));
        },
        RaceEvent::TrafficIntercept { lap, session_time, leader_car_idx, traffic_car_idx, cross_class, distance_m, relative_speed_mps, time_to_intercept_s, intercept_bucket, intercept_lap_dist_pct, predicted_intercept_session_time } => {
            f.push("lap", Json::Int(*lap as i128));
            f.push("session_time", Json::Decimal(*session_time));
            f.push("leader_car_idx", Json::Int(*leader_car_idx as i128));
            f.push("traffic_car_idx", Json::Int(*traffic_car_idx as i128));
            f.push("cross_class", Json::Bool(*cross_class));
            f.push("distance_m", Json::Decimal(*distance_m));
            f.push("relative_speed_mps", Json::Decimal(*relative_speed_mps));
            f.push("time_to_intercept_s", Json::Decimal(*time_to_intercept_s));
            f.push("intercept_bucket", Json::Int(*intercept_bucket as i128));
            f.push("intercept_lap_dist_pct", Json::Decimal(*intercept_lap_dist_pct));
            f.push("predicted_intercept_session_time", Json::Decimal(*predicted_intercept_session_time));
        },
        RaceEvent::VulnerabilityAlert { lap, session_time, vulnerability, defender_idx, attacker_idx, tire_contribution, closing_contribution, proximity_contribution, fuel_contribution } => {
            f.push("lap", Json::Int(*lap as i128));
            f.push("session_time", Json::Decimal(*session_time));
            f.push("vulnerability", Json::Decimal(*vulnerability));
            f.push("defender_idx", Json::Int(*defender_idx as i128));
            f.push("attacker_idx", Json::Int(*attacker_idx as i128));
            f.push("tire_contribution", Json::Decimal(*tire_contribution));
            f.push("closing_contribution", Json::Decimal(*closing_contribution));
            f.push("proximity_contribution", Json::Decimal(*proximity_contribution));
            f.push("fuel_contribution", Json::Decimal(*fuel_contribution));
        },
        RaceEvent::VulnerabilityResolved { lap, session_time, defender_idx, attacker_idx } => {
            f.push("lap", Json::Int(*lap as i128));
            f.push("session_time", Json::Decimal(*session_time));
            f.push("defender_idx", Json::Int(*defender_idx as i128));
            f.push("attacker_idx", Json::Int(*attacker_idx as i128));
        },
        RaceEvent::IncidentCluster { lap, session_time, bucket, lap_dist_pct_from, lap_dist_pct_to, car_idxs, severity, primary_car_idx, incident_type } => {
            f.push("lap", Json::Int(*lap as i128));
            f.push("session_time", Json::Decimal(*session_time));
            f.push("bucket", Json::Int(*bucket as i128));
            f.push("lap_dist_pct_from", Json::Decimal(*lap_dist_pct_from));
            f.push("lap_dist_pct_to", Json::Decimal(*lap_dist_pct_to));
            f.push("car_idxs", indices(car_idxs));
            f.push("severity", Json::Decimal(*severity));
            f.push("primary_car_idx", opt_u8(*primary_car_idx));
            f.push("incident_type", opt_text(incident_type));
        },
        RaceEvent::IncidentClusterResolved { lap, session_time, bucket } => {
            f.push("lap", Json::Int(*lap as i128));
            f.push("session_time", Json::Decimal(*session_time));
            f.push("bucket", Json::Int(*bucket as i128));
        },
        RaceEvent::TrafficCompressionZone { lap, session_time, battle_attacker_idx, battle_defender_idx, window_start_pct, window_end_pct, traffic_car_idxs, compression_score, first_intercept_car_idx, first_intercept_time_s, first_intercept_bucket } => {
            f.push("lap", Json::Int(*lap as i128));
            f.push("session_time", Json::Decimal(*session_time));
            f.push("battle_attacker_idx", Json::Int(*battle_attacker_idx as i128));
            f.push("battle_defender_idx", Json::Int(*battle_defender_idx as i128));
            f.push("window_start_pct", Json::Decimal(*window_start_pct));
            f.push("window_end_pct", Json::Decimal(*window_end_pct));
            f.push("traffic_car_idxs", indices(traffic_car_idxs));
            f.push("compression_score", Json::Int(*compression_score as i128));
            f.push("first_intercept_car_idx", Json::Int(*first_intercept_car_idx as i128));
            f.push("first_intercept_time_s", Json::Decimal(*first_intercept_time_s));
            f.push("first_intercept_bucket", Json::Int(*first_intercept_bucket as i128));
        },
        RaceEvent::PublisherHello { lap, session_time, version, scope } => {
            f.push("lap", Json::Int(*lap as i128));
            f.push("session_time", Json::Decimal(*session_time));
            f.push("version", Json::Text(version.clone()));
            f.push("scope", Json::Text((*scope).to_owned()));
        },
        RaceEvent::PublisherGoodbye { lap, session_time, reason, previous_sub_session_id } => {
            f.push("lap", Json::Int(*lap as i128));
            f.push("session_time", Json::Decimal(*session_time));
            f.push("reason", Json::Text((*reason).to_owned()));
            f.push("previous_sub_session_id", opt_i64(*previous_sub_session_id));
        },
        RaceEvent::PublisherHeartbeat { lap, session_time, version, events_enqueued_total } => {
            f.push("lap", Json::Int(*lap as i128));
            f.push("session_time", Json::Decimal(*session_time));
            f.push("version", Json::Text(version.clone()));
            f.push("events_enqueued_total", Json::Int(*events_enqueued_total as i128));
        },
        RaceEvent::FocusMeRequested { lap, session_time, player_car_idx, request_id, press_seq, driver_id, rig_id, source, button, requested_at_ms, dwell_ms } => {
            f.push("lap", Json::Int(*lap as i128));
            f.push("session_time", Json::Decimal(*session_time));
            f.push("player_car_idx", Json::Int(*player_car_idx as i128));
            f.push("request_id", Json::Text(request_id.clone()));
            f.push("press_seq", Json::Int(*press_seq as i128));
            f.push("driver_id", Json::Text(driver_id.clone()));
            f.push("rig_id", Json::Text(rig_id.clone()));
            f.push("source", Json::Text(source.clone()));
            f.push("button", Json::Int(*button as i128));
            f.push("requested_at_ms", Json::Int(*requested_at_ms as i128));
            f.push("dwell_ms", Json::Int(*dwell_ms as i128));
        },
        RaceEvent::DriverMaterial { lap, session_time, player_car_idx, position, laps_completed, lap_dist_pct, last_lap_time_s, best_lap_time_s, gap_ahead_s, car_ahead_idx, gap_behind_s, car_behind_idx, delta_to_best_s, sector_bucket, sector_delta_to_best_s, gap_ahead_trend, gap_behind_trend, effort, on_pit_road, track_surface, speed_mps, fuel_level_l, incident_count, session_state, interval_s } => {
            f.push("lap", Json::Int(*lap as i128));
            f.push("session_time", Json::Decimal(*session_time));
            f.push("player_car_idx", Json::Int(*player_car_idx as i128));
            f.push("position", Json::Int(*position as i128));
            f.push("laps_completed", Json::Int(*laps_completed as i128));
            f.push("lap_dist_pct", Json::Decimal(*lap_dist_pct));
            f.push("last_lap_time_s", opt_decimal(*last_lap_time_s));
            f.push("best_lap_time_s", opt_decimal(*best_lap_time_s));
            f.push("gap_ahead_s", opt_decimal(*gap_ahead_s));
            f.push("car_ahead_idx", opt_u8(*car_ahead_idx));
            f.push("gap_behind_s", opt_decimal(*gap_behind_s));
            f.push("car_behind_idx", opt_u8(*car_behind_idx));
            f.push("delta_to_best_s", opt_decimal(*delta_to_best_s));
            f.push("sector_bucket", opt_u8(*sector_bucket));
            f.push("sector_delta_to_best_s", opt_decimal(*sector_delta_to_best_s));
            f.push("gap_ahead_trend", Json::Text((*gap_ahead_trend).to_owned()));
            f.push("gap_behind_trend", Json::Text((*gap_behind_trend).to_owned()));
            f.push("effort", Json::Text((*effort).to_owned()));
            f.push("on_pit_road", Json::Bool(*on_pit_road));
            f.push("track_surface", Json::Int(*track_surface as i128));
            f.push("speed_mps", Json::Decimal(*speed_mps));
            f.push("fuel_level_l", Json::Decimal(*fuel_level_l));
            f.push("incident_count", Json::Int(*incident_count as i128));
            f.push("session_state", Json::Int(*session_state as i128));
            f.push("interval_s", Json::Decimal(*interval_s));
        },
        RaceEvent::SessionReset { lap, session_time, previous_sub_session_id, sub_session_id, previous_session_num, session_num, previous_session_time, reason } => {
            f.push("lap", Json::Int(*lap as i128));
            f.push("session_time", Json::Decimal(*session_time));
            f.push("previous_sub_session_id", opt_i64(*previous_sub_session_id));
            f.push("sub_session_id", Json::Int(*sub_session_id as i128));
            f.push("previous_session_num", opt_i32(*previous_session_num));
            f.push("session_num", Json::Int(*session_num as i128));
            f.push("previous_session_time", opt_decimal(*previous_session_time));
            f.push("reason", Json::Text((*reason).to_owned()));
        },
        RaceEvent::BroadcastControlRequested { lap, session_time, action, request_id, press_seq, driver_id, rig_id, source, button, requested_at_ms } => {
            f.push("lap", Json::Int(*lap as i128));
            f.push("session_time", Json::Decimal(*session_time));
            f.push("action", Json::Text(action.clone()));
            f.push("request_id", Json::Text(request_id.clone()));
            f.push("press_seq", Json::Int(*press_seq as i128));
            f.push("driver_id", Json::Text(driver_id.clone()));
            f.push("rig_id", Json::Text(rig_id.clone()));
            f.push("source", Json::Text(source.clone()));
            f.push("button", Json::Int(*button as i128));
            f.push("requested_at_ms", Json::Int(*requested_at_ms as i128));
        },
    }
    f
}

/// No field is named `event_type`.
pub open spec fn untyped(f: Fields) -> bool {
    forall|i: int| 0 <= i < f.len() ==> (#[trigger] f[i]).0 != "event_type"@
}

/// The names of the fields, each held against `event_type`.
proof fn lemma_names()
    ensures
        "action"@ != "event_type"@,
        "anchor_bucket"@ != "event_type"@,
        "attacker_car_idx"@ != "event_type"@,
        "attacker_idx"@ != "event_type"@,
        "attacker_position"@ != "event_type"@,
        "battle_attacker_idx"@ != "event_type"@,
        "battle_defender_idx"@ != "event_type"@,
        "best_lap_time_s"@ != "event_type"@,
        "brake_point_pct"@ != "event_type"@,
        "brake_release_pct"@ != "event_type"@,
        "braking_energy"@ != "event_type"@,
        "bucket"@ != "event_type"@,
        "bucket_from"@ != "event_type"@,
        "bucket_to"@ != "event_type"@,
        "button"@ != "event_type"@,
        "car_ahead_idx"@ != "event_type"@,
        "car_behind_idx"@ != "event_type"@,
        "car_idx"@ != "event_type"@,
        "car_idxs"@ != "event_type"@,
        "car_race_position"@ != "event_type"@,
        "closing_contribution"@ != "event_type"@,
        "closing_rate_sec_per_lap"@ != "event_type"@,
        "coast_duration_s"@ != "event_type"@,
        "coast_start_lap_dist_pct"@ != "event_type"@,
        "coast_start_speed_mps"@ != "event_type"@,
        "compression_score"@ != "event_type"@,
        "cross_class"@ != "event_type"@,
        "cumulative_delta_s"@ != "event_type"@,
        "current_gap_s"@ != "event_type"@,
        "current_speed_mps"@ != "event_type"@,
        "current_track_surface"@ != "event_type"@,
        "defender_car_idx"@ != "event_type"@,
        "defender_idx"@ != "event_type"@,
        "defender_position"@ != "event_type"@,
        "distance_m"@ != "event_type"@,
        "driver_id"@ != "event_type"@,
        "driver_incident_count"@ != "event_type"@,
        "dwell_ms"@ != "event_type"@,
        "delta_to_best_s"@ != "event_type"@,
        "effort"@ != "event_type"@,
        "gap_ahead_trend"@ != "event_type"@,
        "gap_behind_trend"@ != "event_type"@,
        "sector_bucket"@ != "event_type"@,
        "sector_delta_to_best_s"@ != "event_type"@,
        "engagement_started_at_session_time_s"@ != "event_type"@,
        "entry_speed_mps"@ != "event_type"@,
        "estimated_laps_to_contact"@ != "event_type"@,
        "events_enqueued_total"@ != "event_type"@,
        "final_gap_sec"@ != "event_type"@,
        "first_intercept_bucket"@ != "event_type"@,
        "first_intercept_car_idx"@ != "event_type"@,
        "first_intercept_time_s"@ != "event_type"@,
        "fuel_contribution"@ != "event_type"@,
        "fuel_level_l"@ != "event_type"@,
        "fuel_per_lap_l"@ != "event_type"@,
        "fuel_remaining_l"@ != "event_type"@,
        "gap_ahead_s"@ != "event_type"@,
        "gap_behind_s"@ != "event_type"@,
        "gap_s"@ != "event_type"@,
        "hottest_corner"@ != "event_type"@,
        "incident_count"@ != "event_type"@,
        "incident_count_delta"@ != "event_type"@,
        "incident_type"@ != "event_type"@,
        "intercept_bucket"@ != "event_type"@,
        "intercept_lap_dist_pct"@ != "event_type"@,
        "interval_s"@ != "event_type"@,
        "is_provisional"@ != "event_type"@,
        "lap"@ != "event_type"@,
        "lap_dist_pct"@ != "event_type"@,
        "lap_dist_pct_from"@ != "event_type"@,
        "lap_dist_pct_to"@ != "event_type"@,
        "lap_time_s"@ != "event_type"@,
        "laps_completed"@ != "event_type"@,
        "laps_remaining"@ != "event_type"@,
        "last_lap_time_s"@ != "event_type"@,
        "leader_car_idx"@ != "event_type"@,
        "lf_slope_c_per_min"@ != "event_type"@,
        "lf_temp_c"@ != "event_type"@,
        "linked_incident_id"@ != "event_type"@,
        "lr_slope_c_per_min"@ != "event_type"@,
        "lr_temp_c"@ != "event_type"@,
        "min_speed_mps"@ != "event_type"@,
        "on_pit_road"@ != "event_type"@,
        "opponent_car_idx"@ != "event_type"@,
        "origin"@ != "event_type"@,
        "overtaken_car_idx"@ != "event_type"@,
        "peak_brake_pct"@ != "event_type"@,
        "pit_frames"@ != "event_type"@,
        "player_car_idx"@ != "event_type"@,
        "position"@ != "event_type"@,
        "position_from"@ != "event_type"@,
        "position_to"@ != "event_type"@,
        "positions_gained"@ != "event_type"@,
        "predicted_intercept_session_time"@ != "event_type"@,
        "press_seq"@ != "event_type"@,
        "previous_session_num"@ != "event_type"@,
        "previous_session_time"@ != "event_type"@,
        "previous_speed_mps"@ != "event_type"@,
        "previous_sub_session_id"@ != "event_type"@,
        "previous_track_surface"@ != "event_type"@,
        "primary_car_idx"@ != "event_type"@,
        "prior_attack_time_s"@ != "event_type"@,
        "prior_skirmishes"@ != "event_type"@,
        "proximity_contribution"@ != "event_type"@,
        "reason"@ != "event_type"@,
        "relative_speed_mps"@ != "event_type"@,
        "request_id"@ != "event_type"@,
        "requested_at_ms"@ != "event_type"@,
        "rf_slope_c_per_min"@ != "event_type"@,
        "rf_temp_c"@ != "event_type"@,
        "rig_id"@ != "event_type"@,
        "rr_slope_c_per_min"@ != "event_type"@,
        "rr_temp_c"@ != "event_type"@,
        "scope"@ != "event_type"@,
        "sector"@ != "event_type"@,
        "session_num"@ != "event_type"@,
        "session_state"@ != "event_type"@,
        "session_time"@ != "event_type"@,
        "severity"@ != "event_type"@,
        "severity_normalized"@ != "event_type"@,
        "slope_info"@ != "event_type"@,
        "source"@ != "event_type"@,
        "speed_drop_mps"@ != "event_type"@,
        "speed_mps"@ != "event_type"@,
        "sub_session_id"@ != "event_type"@,
        "synthetic"@ != "event_type"@,
        "technique_hint"@ != "event_type"@,
        "throttle_release_pct"@ != "event_type"@,
        "time_to_intercept_s"@ != "event_type"@,
        "tire_contribution"@ != "event_type"@,
        "track_surface"@ != "event_type"@,
        "traffic_car_idx"@ != "event_type"@,
        "traffic_car_idxs"@ != "event_type"@,
        "trigger_car_idx"@ != "event_type"@,
        "version"@ != "event_type"@,
        "vulnerability"@ != "event_type"@,
        "window_end_pct"@ != "event_type"@,
        "window_start_pct"@ != "event_type"@,
{
    reveal_strlit("event_type");
    reveal_strlit("action");
    reveal_strlit("anchor_bucket");
    reveal_strlit("attacker_car_idx");
    reveal_strlit("attacker_idx");
    reveal_strlit("attacker_position");
    reveal_strlit("battle_attacker_idx");
    reveal_strlit("battle_defender_idx");
    reveal_strlit("best_lap_time_s");
    reveal_strlit("brake_point_pct");
    reveal_strlit("brake_release_pct");
    reveal_strlit("braking_energy");
    reveal_strlit("bucket");
    reveal_strlit("bucket_from");
    reveal_strlit("bucket_to");
    reveal_strlit("button");
    reveal_strlit("car_ahead_idx");
    reveal_strlit("car_behind_idx");
    reveal_strlit("car_idx");
    reveal_strlit("car_idxs");
    reveal_strlit("car_race_position");
    reveal_strlit("closing_contribution");
    reveal_strlit("closing_rate_sec_per_lap");
    reveal_strlit("coast_duration_s");
    reveal_strlit("coast_start_lap_dist_pct");
    reveal_strlit("coast_start_speed_mps");
    reveal_strlit("compression_score");
    reveal_strlit("cross_class");
    reveal_strlit("cumulative_delta_s");
    reveal_strlit("current_gap_s");
    reveal_strlit("current_speed_mps");
    reveal_strlit("current_track_surface");
    reveal_strlit("defender_car_idx");
    reveal_strlit("defender_idx");
    reveal_strlit("defender_position");
    reveal_strlit("distance_m");
    reveal_strlit("driver_id");
    reveal_strlit("driver_incident_count");
    reveal_strlit("dwell_ms");
    reveal_strlit("delta_to_best_s");
    reveal_strlit("effort");
    reveal_strlit("gap_ahead_trend");
    reveal_strlit("gap_behind_trend");
    reveal_strlit("sector_bucket");
    reveal_strlit("sector_delta_to_best_s");
    reveal_strlit("engagement_started_at_session_time_s");
    reveal_strlit("entry_speed_mps");
    reveal_strlit("estimated_laps_to_contact");
    reveal_strlit("events_enqueued_total");
    reveal_strlit("final_gap_sec");
    reveal_strlit("first_intercept_bucket");
    reveal_strlit("first_intercept_car_idx");
    reveal_strlit("first_intercept_time_s");
    reveal_strlit("fuel_contribution");
    reveal_strlit("fuel_level_l");
    reveal_strlit("fuel_per_lap_l");
    reveal_strlit("fuel_remaining_l");
    reveal_strlit("gap_ahead_s");
    reveal_strlit("gap_behind_s");
    reveal_strlit("gap_s");
    reveal_strlit("hottest_corner");
    reveal_strlit("incident_count");
    reveal_strlit("incident_count_delta");
    reveal_strlit("incident_type");
    reveal_strlit("intercept_bucket");
    reveal_strlit("intercept_lap_dist_pct");
    reveal_strlit("interval_s");
    reveal_strlit("is_provisional");
    reveal_strlit("lap");
    reveal_strlit("lap_dist_pct");
    reveal_strlit("lap_dist_pct_from");
    reveal_strlit("lap_dist_pct_to");
    reveal_strlit("lap_time_s");
    reveal_strlit("laps_completed");
    reveal_strlit("laps_remaining");
    reveal_strlit("last_lap_time_s");
    reveal_strlit("leader_car_idx");
    reveal_strlit("lf_slope_c_per_min");
    reveal_strlit("lf_temp_c");
    reveal_strlit("linked_incident_id");
    reveal_strlit("lr_slope_c_per_min");
    reveal_strlit("lr_temp_c");
    reveal_strlit("min_speed_mps");
    reveal_strlit("on_pit_road");
    reveal_strlit("opponent_car_idx");
    reveal_strlit("origin");
    reveal_strlit("overtaken_car_idx");
    reveal_strlit("peak_brake_pct");
    reveal_strlit("pit_frames");
    reveal_strlit("player_car_idx");
    reveal_strlit("position");
    reveal_strlit("position_from");
    reveal_strlit("position_to");
    reveal_strlit("positions_gained");
    reveal_strlit("predicted_intercept_session_time");
    reveal_strlit("press_seq");
    reveal_strlit("previous_session_num");
    reveal_strlit("previous_session_time");
    reveal_strlit("previous_speed_mps");
    reveal_strlit("previous_sub_session_id");
    reveal_strlit("previous_track_surface");
    reveal_strlit("primary_car_idx");
    reveal_strlit("prior_attack_time_s");
    reveal_strlit("prior_skirmishes");
    reveal_strlit("proximity_contribution");
    reveal_strlit("reason");
    reveal_strlit("relative_speed_mps");
    reveal_strlit("request_id");
    reveal_strlit("requested_at_ms");
    reveal_strlit("rf_slope_c_per_min");
    reveal_strlit("rf_temp_c");
    reveal_strlit("rig_id");
    reveal_strlit("rr_slope_c_per_min");
    reveal_strlit("rr_temp_c");
    reveal_strlit("scope");
    reveal_strlit("sector");
    reveal_strlit("session_num");
    reveal_strlit("session_state");
    reveal_strlit("session_time");
    reveal_strlit("severity");
    reveal_strlit("severity_normalized");
    reveal_strlit("slope_info");
    reveal_strlit("source");
    reveal_strlit("speed_drop_mps");
    reveal_strlit("speed_mps");
    reveal_strlit("sub_session_id");
    reveal_strlit("synthetic");
    reveal_strlit("technique_hint");
    reveal_strlit("throttle_release_pct");
    reveal_strlit("time_to_intercept_s");
    reveal_strlit("tire_contribution");
    reveal_strlit("track_surface");
    reveal_strlit("traffic_car_idx");
    reveal_strlit("traffic_car_idxs");
    reveal_strlit("trigger_car_idx");
    reveal_strlit("version");
    reveal_strlit("vulnerability");
    reveal_strlit("window_end_pct");
    reveal_strlit("window_start_pct");
    assert("action"@.len() == 6);
    assert("anchor_bucket"@.len() == 13);
    assert("attacker_car_idx"@.len() == 16);
    assert("attacker_idx"@.len() == 12);
    assert("attacker_position"@.len() == 17);
    assert("battle_attacker_idx"@.len() == 19);
    assert("battle_defender_idx"@.len() == 19);
    assert("best_lap_time_s"@.len() == 15);
    assert("brake_point_pct"@.len() == 15);
    assert("brake_release_pct"@.len() == 17);
    assert("braking_energy"@.len() == 14);
    assert("bucket"@.len() == 6);
    assert("bucket_from"@.len() == 11);
    assert("bucket_to"@.len() == 9);
    assert("button"@.len() == 6);
    assert("car_ahead_idx"@.len() == 13);
    assert("car_behind_idx"@.len() == 14);
    assert("car_idx"@.len() == 7);
    assert("car_idxs"@.len() == 8);
    assert("car_race_position"@.len() == 17);
    assert("closing_contribution"@.len() == 20);
    assert("closing_rate_sec_per_lap"@.len() == 24);
    assert("coast_duration_s"@.len() == 16);
    assert("coast_start_lap_dist_pct"@.len() == 24);
    assert("coast_start_speed_mps"@.len() == 21);
    assert("compression_score"@.len() == 17);
    assert("cross_class"@.len() == 11);
    assert("cumulative_delta_s"@.len() == 18);
    assert("current_gap_s"@.len() == 13);
    assert("current_speed_mps"@.len() == 17);
    assert("current_track_surface"@.len() == 21);
    assert("defender_car_idx"@.len() == 16);
    assert("defender_idx"@.len() == 12);
    assert("defender_position"@.len() == 17);
    assert("distance_m"@[0] != "event_type"@[0]);
    assert("driver_id"@.len() == 9);
    assert("driver_incident_count"@.len() == 21);
    assert("dwell_ms"@.len() == 8);
    assert("delta_to_best_s"@.len() == 15);
    assert("effort"@.len() == 6);
    assert("gap_ahead_trend"@.len() == 15);
    assert("gap_behind_trend"@.len() == 16);
    assert("sector_bucket"@.len() == 13);
    assert("sector_delta_to_best_s"@.len() == 22);
    assert("engagement_started_at_session_time_s"@.len() == 36);
    assert("entry_speed_mps"@.len() == 15);
    assert("estimated_laps_to_contact"@.len() == 25);
    assert("events_enqueued_total"@.len() == 21);
    assert("final_gap_sec"@.len() == 13);
    assert("first_intercept_bucket"@.len() == 22);
    assert("first_intercept_car_idx"@.len() == 23);
    assert("first_intercept_time_s"@.len() == 22);
    assert("fuel_contribution"@.len() == 17);
    assert("fuel_level_l"@.len() == 12);
    assert("fuel_per_lap_l"@.len() == 14);
    assert("fuel_remaining_l"@.len() == 16);
    assert("gap_ahead_s"@.len() == 11);
    assert("gap_behind_s"@.len() == 12);
    assert("gap_s"@.len() == 5);
    assert("hottest_corner"@.len() == 14);
    assert("incident_count"@.len() == 14);
    assert("incident_count_delta"@.len() == 20);
    assert("incident_type"@.len() == 13);
    assert("intercept_bucket"@.len() == 16);
    assert("intercept_lap_dist_pct"@.len() == 22);
    assert("interval_s"@[0] != "event_type"@[0]);
    assert("is_provisional"@.len() == 14);
    assert("lap"@.len() == 3);
    assert("lap_dist_pct"@.len() == 12);
    assert("lap_dist_pct_from"@.len() == 17);
    assert("lap_dist_pct_to"@.len() == 15);
    assert("lap_time_s"@[0] != "event_type"@[0]);
    assert("laps_completed"@.len() == 14);
    assert("laps_remaining"@.len() == 14);
    assert("last_lap_time_s"@.len() == 15);
    assert("leader_car_idx"@.len() == 14);
    assert("lf_slope_c_per_min"@.len() == 18);
    assert("lf_temp_c"@.len() == 9);
    assert("linked_incident_id"@.len() == 18);
    assert("lr_slope_c_per_min"@.len() == 18);
    assert("lr_temp_c"@.len() == 9);
    assert("min_speed_mps"@.len() == 13);
    assert("on_pit_road"@.len() == 11);
    assert("opponent_car_idx"@.len() == 16);
    assert("origin"@.len() == 6);
    assert("overtaken_car_idx"@.len() == 17);
    assert("peak_brake_pct"@.len() == 14);
    assert("pit_frames"@[0] != "event_type"@[0]);
    assert("player_car_idx"@.len() == 14);
    assert("position"@.len() == 8);
    assert("position_from"@.len() == 13);
    assert("position_to"@.len() == 11);
    assert("positions_gained"@.len() == 16);
    assert("predicted_intercept_session_time"@.len() == 32);
    assert("press_seq"@.len() == 9);
    assert("previous_session_num"@.len() == 20);
    assert("previous_session_time"@.len() == 21);
    assert("previous_speed_mps"@.len() == 18);
    assert("previous_sub_session_id"@.len() == 23);
    assert("previous_track_surface"@.len() == 22);
    assert("primary_car_idx"@.len() == 15);
    assert("prior_attack_time_s"@.len() == 19);
    assert("prior_skirmishes"@.len() == 16);
    assert("proximity_contribution"@.len() == 22);
    assert("reason"@.len() == 6);
    assert("relative_speed_mps"@.len() == 18);
    assert("request_id"@[0] != "event_type"@[0]);
    assert("requested_at_ms"@.len() == 15);
    assert("rf_slope_c_per_min"@.len() == 18);
    assert("rf_temp_c"@.len() == 9);
    assert("rig_id"@.len() == 6);
    assert("rr_slope_c_per_min"@.len() == 18);
    assert("rr_temp_c"@.len() == 9);
    assert("scope"@.len() == 5);
    assert("sector"@.len() == 6);
    assert("session_num"@.len() == 11);
    assert("session_state"@.len() == 13);
    assert("session_time"@.len() == 12);
    assert("severity"@.len() == 8);
    assert("severity_normalized"@.len() == 19);
    assert("slope_info"@[0] != "event_type"@[0]);
    assert("source"@.len() == 6);
    assert("speed_drop_mps"@.len() == 14);
    assert("speed_mps"@.len() == 9);
    assert("sub_session_id"@.len() == 14);
    assert("synthetic"@.len() == 9);
    assert("technique_hint"@.len() == 14);
    assert("throttle_release_pct"@.len() == 20);
    assert("time_to_intercept_s"@.len() == 19);
    assert("tire_contribution"@.len() == 17);
    assert("track_surface"@.len() == 13);
    assert("traffic_car_idx"@.len() == 15);
    assert("traffic_car_idxs"@.len() == 16);
    assert("trigger_car_idx"@.len() == 15);
    assert("version"@.len() == 7);
    assert("vulnerability"@.len() == 13);
    assert("window_end_pct"@.len() == 14);
    assert("window_start_pct"@.len() == 16);
}

/// The type of an event stands on the envelope: none of its fields is named
/// `event_type`.
pub proof fn no_field_is_the_event_type(event: RaceEvent, k: int)
    requires
        0 <= k < event_fields(event).len(),
    ensures
        event_fields(event)[k].0 != "event_type"@,
{
    lemma_names();
    assert(untyped(event_fields(event)));
}

/// What is published of a battle stands under its own name: cars, gaps, positions, times and
/// slopes are those of the event.
pub proof fn fields_of_battles_have_their_names(event: RaceEvent)
    ensures
        event matches RaceEvent::BattleEngaged {
            lap,
            session_time,
            player_car_idx,
            opponent_car_idx,
            gap_s,
            car_race_position,
            prior_skirmishes,
            prior_attack_time_s,
            engagement_started_at_session_time_s,
        } ==> {
            let f = event_fields(event);
            &&& f.contains(("lap"@, JsonView::Int(lap as int)))
            &&& f.contains(("session_time"@, JsonView::Decimal(session_time)))
            &&& f.contains(("player_car_idx"@, JsonView::Int(player_car_idx as int)))
            &&& f.contains(("opponent_car_idx"@, JsonView::Int(opponent_car_idx as int)))
            &&& f.contains(("gap_s"@, JsonView::Decimal(gap_s)))
            &&& f.contains(("car_race_position"@, JsonView::Int(car_race_position as int)))
            &&& f.contains(("prior_skirmishes"@, JsonView::Int(prior_skirmishes as int)))
            &&& f.contains(("prior_attack_time_s"@, JsonView::Decimal(prior_attack_time_s)))
            &&& f.contains(("engagement_started_at_session_time_s"@, JsonView::Decimal(engagement_started_at_session_time_s)))
        },
        event matches RaceEvent::BattleBroken {
            lap,
            session_time,
            player_car_idx,
            opponent_car_idx,
            final_gap_sec,
            car_race_position,
            engagement_started_at_session_time_s,
        } ==> {
            let f = event_fields(event);
            &&& f.contains(("lap"@, JsonView::Int(lap as int)))
            &&& f.contains(("session_time"@, JsonView::Decimal(session_time)))
            &&& f.contains(("player_car_idx"@, JsonView::Int(player_car_idx as int)))
            &&& f.contains(("opponent_car_idx"@, JsonView::Int(opponent_car_idx as int)))
            &&& f.contains(("final_gap_sec"@, opt_decimal_view(final_gap_sec)))
            &&& f.contains(("car_race_position"@, JsonView::Int(car_race_position as int)))
            &&& f.contains(("engagement_started_at_session_time_s"@, JsonView::Decimal(engagement_started_at_session_time_s)))
        },
        event matches RaceEvent::BattleClosing {
            lap,
            session_time,
            player_car_idx,
            opponent_car_idx,
            car_race_position,
            closing_rate_sec_per_lap,
            slope_info,
            prior_skirmishes,
            prior_attack_time_s,
        } ==> {
            let f = event_fields(event);
            &&& f.contains(("lap"@, JsonView::Int(lap as int)))
            &&& f.contains(("session_time"@, JsonView::Decimal(session_time)))
            &&& f.contains(("player_car_idx"@, JsonView::Int(player_car_idx as int)))
            &&& f.contains(("opponent_car_idx"@, JsonView::Int(opponent_car_idx as int)))
            &&& f.contains(("car_race_position"@, JsonView::Int(car_race_position as int)))
            &&& f.contains(("closing_rate_sec_per_lap"@, JsonView::Decimal(closing_rate_sec_per_lap)))
            &&& f.contains(("slope_info"@, slope_view(slope_info)))
            &&& f.contains(("prior_skirmishes"@, JsonView::Int(prior_skirmishes as int)))
            &&& f.contains(("prior_attack_time_s"@, JsonView::Decimal(prior_attack_time_s)))
        },
{
    if let RaceEvent::BattleEngaged { lap, session_time, player_car_idx, opponent_car_idx, gap_s, car_race_position, prior_skirmishes, prior_attack_time_s, engagement_started_at_session_time_s } = event {
        let f = event_fields(event);
        assert(f[0] == ("lap"@, JsonView::Int(lap as int)));
        assert(f[1] == ("session_time"@, JsonView::Decimal(session_time)));
        assert(f[2] == ("player_car_idx"@, JsonView::Int(player_car_idx as int)));
        assert(f[3] == ("opponent_car_idx"@, JsonView::Int(opponent_car_idx as int)));
        assert(f[4] == ("gap_s"@, JsonView::Decimal(gap_s)));
        assert(f[5] == ("car_race_position"@, JsonView::Int(car_race_position as int)));
        assert(f[6] == ("prior_skirmishes"@, JsonView::Int(prior_skirmishes as int)));
        assert(f[7] == ("prior_attack_time_s"@, JsonView::Decimal(prior_attack_time_s)));
        assert(f[8] == ("engagement_started_at_session_time_s"@, JsonView::Decimal(engagement_started_at_session_time_s)));
    }
    if let RaceEvent::BattleBroken { lap, session_time, player_car_idx, opponent_car_idx, final_gap_sec, car_race_position, engagement_started_at_session_time_s } = event {
        let f = event_fields(event);
        assert(f[0] == ("lap"@, JsonView::Int(lap as int)));
        assert(f[1] == ("session_time"@, JsonView::Decimal(session_time)));
        assert(f[2] == ("player_car_idx"@, JsonView::Int(player_car_idx as int)));
        assert(f[3] == ("opponent_car_idx"@, JsonView::Int(opponent_car_idx as int)));
        assert(f[4] == ("final_gap_sec"@, opt_decimal_view(final_gap_sec)));
        assert(f[5] == ("car_race_position"@, JsonView::Int(car_race_position as int)));
        assert(f[6] == ("engagement_started_at_session_time_s"@, JsonView::Decimal(engagement_started_at_session_time_s)));
    }
    if let RaceEvent::BattleClosing { lap, session_time, player_car_idx, opponent_car_idx, car_race_position, closing_rate_sec_per_lap, slope_info, prior_skirmishes, prior_attack_time_s } = event {
        let f = event_fields(event);
        assert(f[0] == ("lap"@, JsonView::Int(lap as int)));
        assert(f[1] == ("session_time"@, JsonView::Decimal(session_time)));
        assert(f[2] == ("player_car_idx"@, JsonView::Int(player_car_idx as int)));
        assert(f[3] == ("opponent_car_idx"@, JsonView::Int(opponent_car_idx as int)));
        assert(f[4] == ("car_race_position"@, JsonView::Int(car_race_position as int)));
        assert(f[5] == ("closing_rate_sec_per_lap"@, JsonView::Decimal(closing_rate_sec_per_lap)));
        assert(f[6] == ("slope_info"@, slope_view(slope_info)));
        assert(f[7] == ("prior_skirmishes"@, JsonView::Int(prior_skirmishes as int)));
        assert(f[8] == ("prior_attack_time_s"@, JsonView::Decimal(prior_attack_time_s)));
    }
}

/// What is published of a lap and of won positions stands under its own name: times,
/// positions and cars are those of the event.
pub proof fn fields_of_laps_have_their_names(event: RaceEvent)
    ensures
        event matches RaceEvent::LapCompleted {
            lap,
            session_time,
            player_car_idx,
            lap_time_s,
            best_lap_time_s,
            position,
            pit_frames,
        } ==> {
            let f = event_fields(event);
            &&& f.contains(("lap"@, JsonView::Int(lap as int)))
            &&& f.contains(("session_time"@, JsonView::Decimal(session_time)))
            &&& f.contains(("player_car_idx"@, JsonView::Int(player_car_idx as int)))
            &&& f.contains(("lap_time_s"@, opt_decimal_view(lap_time_s)))
            &&& f.contains(("best_lap_time_s"@, opt_decimal_view(best_lap_time_s)))
            &&& f.contains(("position"@, JsonView::Int(position as int)))
            &&& f.contains(("pit_frames"@, JsonView::Int(pit_frames as int)))
        },
        event matches RaceEvent::Overtake {
            lap,
            session_time,
            car_idx,
            overtaken_car_idx,
            position_from,
            position_to,
            positions_gained,
        } ==> {
            let f = event_fields(event);
            &&& f.contains(("lap"@, JsonView::Int(lap as int)))
            &&& f.contains(("session_time"@, JsonView::Decimal(session_time)))
            &&& f.contains(("car_idx"@, JsonView::Int(car_idx as int)))
            &&& f.contains(("overtaken_car_idx"@, opt_u8_view(overtaken_car_idx)))
            &&& f.contains(("position_from"@, JsonView::Int(position_from as int)))
            &&& f.contains(("position_to"@, JsonView::Int(position_to as int)))
            &&& f.contains(("positions_gained"@, JsonView::Int(positions_gained as int)))
        },
        event matches RaceEvent::OvertakeForLead {
            lap,
            session_time,
            car_idx,
            overtaken_car_idx,
            position_from,
            positions_gained,
        } ==> {
            let f = event_fields(event);
            &&& f.contains(("lap"@, JsonView::Int(lap as int)))
            &&& f.contains(("session_time"@, JsonView::Decimal(session_time)))
            &&& f.contains(("car_idx"@, JsonView::Int(car_idx as int)))
            &&& f.contains(("overtaken_car_idx"@, opt_u8_view(overtaken_car_idx)))
            &&& f.contains(("position_from"@, JsonView::Int(position_from as int)))
            &&& f.contains(("positions_gained"@, JsonView::Int(positions_gained as int)))
        },
{
    if let RaceEvent::LapCompleted { lap, session_time, player_car_idx, lap_time_s, best_lap_time_s, position, pit_frames } = event {
        let f = event_fields(event);
        assert(f[0] == ("lap"@, JsonView::Int(lap as int)));
        assert(f[1] == ("session_time"@, JsonView::Decimal(session_time)));
        assert(f[2] == ("player_car_idx"@, JsonView::Int(player_car_idx as int)));
        assert(f[3] == ("lap_time_s"@, opt_decimal_view(lap_time_s)));
        assert(f[4] == ("best_lap_time_s"@, opt_decimal_view(best_lap_time_s)));
        assert(f[5] == ("position"@, JsonView::Int(position as int)));
        assert(f[6] == ("pit_frames"@, JsonView::Int(pit_frames as int)));
    }
    if let RaceEvent::Overtake { lap, session_time, car_idx, overtaken_car_idx, position_from, position_to, positions_gained } = event {
        let f = event_fields(event);
        assert(f[0] == ("lap"@, JsonView::Int(lap as int)));
        assert(f[1] == ("session_time"@, JsonView::Decimal(session_time)));
        assert(f[2] == ("car_idx"@, JsonView::Int(car_idx as int)));
        assert(f[3] == ("overtaken_car_idx"@, opt_u8_view(overtaken_car_idx)));
        assert(f[4] == ("position_from"@, JsonView::Int(position_from as int)));
        assert(f[5] == ("position_to"@, JsonView::Int(position_to as int)));
        assert(f[6] == ("positions_gained"@, JsonView::Int(positions_gained as int)));
    }
    if let RaceEvent::OvertakeForLead { lap, session_time, car_idx, overtaken_car_idx, position_from, positions_gained } = event {
        let f = event_fields(event);
        assert(f[0] == ("lap"@, JsonView::Int(lap as int)));
        assert(f[1] == ("session_time"@, JsonView::Decimal(session_time)));
        assert(f[2] == ("car_idx"@, JsonView::Int(car_idx as int)));
        assert(f[3] == ("overtaken_car_idx"@, opt_u8_view(overtaken_car_idx)));
        assert(f[4] == ("position_from"@, JsonView::Int(position_from as int)));
        assert(f[5] == ("positions_gained"@, JsonView::Int(positions_gained as int)));
    }
}

/// What is published of an incident and of segments stands under its own name: surfaces,
/// speeds, severity, places and times are those of the event.
pub proof fn fields_of_alerts_and_segments_have_their_names(event: RaceEvent)
    ensures
        event matches RaceEvent::IncidentAlert {
            lap,
            session_time,
            car_idx,
            driver_incident_count,
            previous_track_surface,
            current_track_surface,
            previous_speed_mps,
            current_speed_mps,
            speed_drop_mps,
            severity,
            severity_normalized,
            incident_count_delta,
            reason,
        } ==> {
            let f = event_fields(event);
            &&& f.contains(("lap"@, JsonView::Int(lap as int)))
            &&& f.contains(("session_time"@, JsonView::Decimal(session_time)))
            &&& f.contains(("car_idx"@, JsonView::Int(car_idx as int)))
            &&& f.contains(("driver_incident_count"@, opt_i32_view(driver_incident_count)))
            &&& f.contains(("previous_track_surface"@, JsonView::Int(previous_track_surface as int)))
            &&& f.contains(("current_track_surface"@, JsonView::Int(current_track_surface as int)))
            &&& f.contains(("previous_speed_mps"@, JsonView::Decimal(previous_speed_mps)))
            &&& f.contains(("current_speed_mps"@, JsonView::Decimal(current_speed_mps)))
            &&& f.contains(("speed_drop_mps"@, JsonView::Decimal(speed_drop_mps)))
            &&& f.contains(("severity"@, JsonView::Decimal(severity)))
            &&& f.contains(("severity_normalized"@, JsonView::Decimal(severity_normalized)))
            &&& f.contains(("incident_count_delta"@, opt_i32_view(incident_count_delta)))
            &&& f.contains(("reason"@, JsonView::Text(reason@)))
        },
        event matches RaceEvent::MicroSectorGain {
            lap,
            session_time,
            bucket_from,
            bucket_to,
            lap_dist_pct_from,
            lap_dist_pct_to,
            cumulative_delta_s,
            technique_hint,
        } ==> {
            let f = event_fields(event);
            &&& f.contains(("lap"@, JsonView::Int(lap as int)))
            &&& f.contains(("session_time"@, JsonView::Decimal(session_time)))
            &&& f.contains(("bucket_from"@, JsonView::Int(bucket_from as int)))
            &&& f.contains(("bucket_to"@, JsonView::Int(bucket_to as int)))
            &&& f.contains(("lap_dist_pct_from"@, JsonView::Decimal(lap_dist_pct_from)))
            &&& f.contains(("lap_dist_pct_to"@, JsonView::Decimal(lap_dist_pct_to)))
            &&& f.contains(("cumulative_delta_s"@, JsonView::Decimal(cumulative_delta_s)))
            &&& f.contains(("technique_hint"@, JsonView::Text(technique_hint@)))
        },
        event matches RaceEvent::MicroSectorLoss {
            lap,
            session_time,
            bucket_from,
            bucket_to,
            lap_dist_pct_from,
            lap_dist_pct_to,
            cumulative_delta_s,
        } ==> {
            let f = event_fields(event);
            &&& f.contains(("lap"@, JsonView::Int(lap as int)))
            &&& f.contains(("session_time"@, JsonView::Decimal(session_time)))
            &&& f.contains(("bucket_from"@, JsonView::Int(bucket_from as int)))
            &&& f.contains(("bucket_to"@, JsonView::Int(bucket_to as int)))
            &&& f.contains(("lap_dist_pct_from"@, JsonView::Decimal(lap_dist_pct_from)))
            &&& f.contains(("lap_dist_pct_to"@, JsonView::Decimal(lap_dist_pct_to)))
            &&& f.contains(("cumulative_delta_s"@, JsonView::Decimal(cumulative_delta_s)))
        },
{
    if let RaceEvent::IncidentAlert { lap, session_time, car_idx, driver_incident_count, previous_track_surface, current_track_surface, previous_speed_mps, current_speed_mps, speed_drop_mps, severity, severity_normalized, incident_count_delta, reason } = event {
        let f = event_fields(event);
        assert(f[0] == ("lap"@, JsonView::Int(lap as int)));
        assert(f[1] == ("session_time"@, JsonView::Decimal(session_time)));
        assert(f[2] == ("car_idx"@, JsonView::Int(car_idx as int)));
        assert(f[3] == ("driver_incident_count"@, opt_i32_view(driver_incident_count)));
        assert(f[4] == ("previous_track_surface"@, JsonView::Int(previous_track_surface as int)));
        assert(f[5] == ("current_track_surface"@, JsonView::Int(current_track_surface as int)));
        assert(f[6] == ("previous_speed_mps"@, JsonView::Decimal(previous_speed_mps)));
        assert(f[7] == ("current_speed_mps"@, JsonView::Decimal(current_speed_mps)));
        assert(f[8] == ("speed_drop_mps"@, JsonView::Decimal(speed_drop_mps)));
        assert(f[9] == ("severity"@, JsonView::Decimal(severity)));
        assert(f[10] == ("severity_normalized"@, JsonView::Decimal(severity_normalized)));
        assert(f[11] == ("incident_count_delta"@, opt_i32_view(incident_count_delta)));
        assert(f[12] == ("reason"@, JsonView::Text(reason@)));
    }
    if let RaceEvent::MicroSectorGain { lap, session_time, bucket_from, bucket_to, lap_dist_pct_from, lap_dist_pct_to, cumulative_delta_s, technique_hint } = event {
        let f = event_fields(event);
        assert(f[0] == ("lap"@, JsonView::Int(lap as int)));
        assert(f[1] == ("session_time"@, JsonView::Decimal(session_time)));
        assert(f[2] == ("bucket_from"@, JsonView::Int(bucket_from as int)));
        assert(f[3] == ("bucket_to"@, JsonView::Int(bucket_to as int)));
        assert(f[4] == ("lap_dist_pct_from"@, JsonView::Decimal(lap_dist_pct_from)));
        assert(f[5] == ("lap_dist_pct_to"@, JsonView::Decimal(lap_dist_pct_to)));
        assert(f[6] == ("cumulative_delta_s"@, JsonView::Decimal(cumulative_delta_s)));
        assert(f[7] == ("technique_hint"@, JsonView::Text(technique_hint@)));
    }
    if let RaceEvent::MicroSectorLoss { lap, session_time, bucket_from, bucket_to, lap_dist_pct_from, lap_dist_pct_to, cumulative_delta_s } = event {
        let f = event_fields(event);
        assert(f[0] == ("lap"@, JsonView::Int(lap as int)));
        assert(f[1] == ("session_time"@, JsonView::Decimal(session_time)));
        assert(f[2] == ("bucket_from"@, JsonView::Int(bucket_from as int)));
        assert(f[3] == ("bucket_to"@, JsonView::Int(bucket_to as int)));
        assert(f[4] == ("lap_dist_pct_from"@, JsonView::Decimal(lap_dist_pct_from)));
        assert(f[5] == ("lap_dist_pct_to"@, JsonView::Decimal(lap_dist_pct_to)));
        assert(f[6] == ("cumulative_delta_s"@, JsonView::Decimal(cumulative_delta_s)));
    }
}

/// What is published of the driver and of a reset stands under its own name.
pub proof fn fields_of_reports_have_their_names(event: RaceEvent)
    ensures
        event matches RaceEvent::DriverMaterial {
            lap,
            session_time,
            player_car_idx,
            position,
            laps_completed,
            lap_dist_pct,
            last_lap_time_s,
            best_lap_time_s,
            gap_ahead_s,
            car_ahead_idx,
            gap_behind_s,
            car_behind_idx,
            delta_to_best_s,
            sector_bucket,
            sector_delta_to_best_s,
            gap_ahead_trend,
            gap_behind_trend,
            effort,
            on_pit_road,
            track_surface,
            speed_mps,
            fuel_level_l,
            incident_count,
            session_state,
            interval_s,
        } ==> {
            let f = event_fields(event);
            &&& f.contains(("lap"@, JsonView::Int(lap as int)))
            &&& f.contains(("session_time"@, JsonView::Decimal(session_time)))
            &&& f.contains(("player_car_idx"@, JsonView::Int(player_car_idx as int)))
            &&& f.contains(("position"@, JsonView::Int(position as int)))
            &&& f.contains(("laps_completed"@, JsonView::Int(laps_completed as int)))
            &&& f.contains(("lap_dist_pct"@, JsonView::Decimal(lap_dist_pct)))
            &&& f.contains(("last_lap_time_s"@, opt_decimal_view(last_lap_time_s)))
            &&& f.contains(("best_lap_time_s"@, opt_decimal_view(best_lap_time_s)))
            &&& f.contains(("gap_ahead_s"@, opt_decimal_view(gap_ahead_s)))
            &&& f.contains(("car_ahead_idx"@, opt_u8_view(car_ahead_idx)))
            &&& f.contains(("gap_behind_s"@, opt_decimal_view(gap_behind_s)))
            &&& f.contains(("car_behind_idx"@, opt_u8_view(car_behind_idx)))
            &&& f.contains(("delta_to_best_s"@, opt_decimal_view(delta_to_best_s)))
            &&& f.contains(("sector_bucket"@, opt_u8_view(sector_bucket)))
            &&& f.contains(("sector_delta_to_best_s"@, opt_decimal_view(sector_delta_to_best_s)))
            &&& f.contains(("gap_ahead_trend"@, JsonView::Text(gap_ahead_trend@)))
            &&& f.contains(("gap_behind_trend"@, JsonView::Text(gap_behind_trend@)))
            &&& f.contains(("effort"@, JsonView::Text(effort@)))
            &&& f.contains(("on_pit_road"@, JsonView::Bool(on_pit_road)))
            &&& f.contains(("track_surface"@, JsonView::Int(track_surface as int)))
            &&& f.contains(("speed_mps"@, JsonView::Decimal(speed_mps)))
            &&& f.contains(("fuel_level_l"@, JsonView::Decimal(fuel_level_l)))
            &&& f.contains(("incident_count"@, JsonView::Int(incident_count as int)))
            &&& f.contains(("session_state"@, JsonView::Int(session_state as int)))
            &&& f.contains(("interval_s"@, JsonView::Decimal(interval_s)))
        },
        event matches RaceEvent::SessionReset {
            lap,
            session_time,
            previous_sub_session_id,
            sub_session_id,
            previous_session_num,
            session_num,
            previous_session_time,
            reason,
        } ==> {
            let f = event_fields(event);
            &&& f.contains(("lap"@, JsonView::Int(lap as int)))
            &&& f.contains(("session_time"@, JsonView::Decimal(session_time)))
            &&& f.contains(("previous_sub_session_id"@, opt_i64_view(previous_sub_session_id)))
            &&& f.contains(("sub_session_id"@, JsonView::Int(sub_session_id as int)))
            &&& f.contains(("previous_session_num"@, opt_i32_view(previous_session_num)))
            &&& f.contains(("session_num"@, JsonView::Int(session_num as int)))
            &&& f.contains(("previous_session_time"@, opt_decimal_view(previous_session_time)))
            &&& f.contains(("reason"@, JsonView::Text(reason@)))
        },
{
    if let RaceEvent::DriverMaterial { lap, session_time, player_car_idx, position, laps_completed, lap_dist_pct, last_lap_time_s, best_lap_time_s, gap_ahead_s, car_ahead_idx, gap_behind_s, car_behind_idx, delta_to_best_s, sector_bucket, sector_delta_to_best_s, gap_ahead_trend, gap_behind_trend, effort, on_pit_road, track_surface, speed_mps, fuel_level_l, incident_count, session_state, interval_s } = event {
        let f = event_fields(event);
        assert(f[0] == ("lap"@, JsonView::Int(lap as int)));
        assert(f[1] == ("session_time"@, JsonView::Decimal(session_time)));
        assert(f[2] == ("player_car_idx"@, JsonView::Int(player_car_idx as int)));
        assert(f[3] == ("position"@, JsonView::Int(position as int)));
        assert(f[4] == ("laps_completed"@, JsonView::Int(laps_completed as int)));
        assert(f[5] == ("lap_dist_pct"@, JsonView::Decimal(lap_dist_pct)));
        assert(f[6] == ("last_lap_time_s"@, opt_decimal_view(last_lap_time_s)));
        assert(f[7] == ("best_lap_time_s"@, opt_decimal_view(best_lap_time_s)));
        assert(f[8] == ("gap_ahead_s"@, opt_decimal_view(gap_ahead_s)));
        assert(f[9] == ("car_ahead_idx"@, opt_u8_view(car_ahead_idx)));
        assert(f[10] == ("gap_behind_s"@, opt_decimal_view(gap_behind_s)));
        assert(f[11] == ("car_behind_idx"@, opt_u8_view(car_behind_idx)));
        assert(f[12] == ("delta_to_best_s"@, opt_decimal_view(delta_to_best_s)));
        assert(f[13] == ("sector_bucket"@, opt_u8_view(sector_bucket)));
        assert(f[14] == ("sector_delta_to_best_s"@, opt_decimal_view(sector_delta_to_best_s)));
        assert(f[15] == ("gap_ahead_trend"@, JsonView::Text(gap_ahead_trend@)));
        assert(f[16] == ("gap_behind_trend"@, JsonView::Text(gap_behind_trend@)));
        assert(f[17] == ("effort"@, JsonView::Text(effort@)));
        assert(f[18] == ("on_pit_road"@, JsonView::Bool(on_pit_road)));
        assert(f[19] == ("track_surface"@, JsonView::Int(track_surface as int)));
        assert(f[20] == ("speed_mps"@, JsonView::Decimal(speed_mps)));
        assert(f[21] == ("fuel_level_l"@, JsonView::Decimal(fuel_level_l)));
        assert(f[22] == ("incident_count"@, JsonView::Int(incident_count as int)));
        assert(f[23] == ("session_state"@, JsonView::Int(session_state as int)));
        assert(f[24] == ("interval_s"@, JsonView::Decimal(interval_s)));
    }
    if let RaceEvent::SessionReset { lap, session_time, previous_sub_session_id, sub_session_id, previous_session_num, session_num, previous_session_time, reason } = event {
        let f = event_fields(event);
        assert(f[0] == ("lap"@, JsonView::Int(lap as int)));
        assert(f[1] == ("session_time"@, JsonView::Decimal(session_time)));
        assert(f[2] == ("previous_sub_session_id"@, opt_i64_view(previous_sub_session_id)));
        assert(f[3] == ("sub_session_id"@, JsonView::Int(sub_session_id as int)));
        assert(f[4] == ("previous_session_num"@, opt_i32_view(previous_session_num)));
        assert(f[5] == ("session_num"@, JsonView::Int(session_num as int)));
        assert(f[6] == ("previous_session_time"@, opt_decimal_view(previous_session_time)));
        assert(f[7] == ("reason"@, JsonView::Text(reason@)));
    }
}

} // verus!
