//! The events of a race, their wire names and their scopes.

use vstd::prelude::*;

use crate::battle_state::SlopeInfo;
use crate::fixed::Micro;

verus! {

/// High-level scope of an emitted event.
#[derive(Clone, Copy, Debug, PartialEq, Eq, Structural)]
pub enum EventScope {
    CarScoped,
    RigScoped,
    SessionScoped,
}

/// Classification of a yellow flag's scope relative to the player.
#[derive(Clone, Copy, Debug, PartialEq, Eq, Structural)]
pub enum FlagScope {
    /// The player's own actions caused the yellow condition.
    SelfCaused,
    /// Another car caused the yellow, but in close proximity to the player.
    Nearby,
    /// A caution or yellow condition that affects all cars session-wide.
    SessionWide,
    /// Unable to determine the scope from available data.
    Unknown,
}

/// Where a session lifecycle event comes from.
#[derive(Clone, Copy, Debug, PartialEq, Eq, Structural)]
pub enum LifecycleOrigin {
    /// The session was seen to change.
    SessionStateTransition,
    /// The session was found in this state by the first frame.
    ConnectSnapshot,
}

/// All narrative events emitted by the engine.
#[allow(inconsistent_fields)]
#[derive(Debug)]
pub enum RaceEvent {
    BattleEngaged {
        lap: u8,
        session_time: Micro,
        player_car_idx: u8,
        opponent_car_idx: u8,
        gap_s: Micro,
        car_race_position: u8,
        prior_skirmishes: u32,
        prior_attack_time_s: Micro,
        engagement_started_at_session_time_s: Micro,
    },
    BattleBroken {
        lap: u8,
        session_time: Micro,
        player_car_idx: u8,
        opponent_car_idx: u8,
        final_gap_sec: Option<Micro>,
        car_race_position: u8,
        engagement_started_at_session_time_s: Micro,
    },
    BattleClosing {
        lap: u8,
        session_time: Micro,
        player_car_idx: u8,
        opponent_car_idx: u8,
        car_race_position: u8,
        closing_rate_sec_per_lap: Micro,
        slope_info: SlopeInfo,
        prior_skirmishes: u32,
        prior_attack_time_s: Micro,
    },
    HorizonClosing {
        lap: u8,
        session_time: Micro,
        attacker_car_idx: u8,
        defender_car_idx: u8,
        attacker_position: u8,
        defender_position: u8,
        current_gap_s: Micro,
        closing_rate_sec_per_lap: Micro,
        estimated_laps_to_contact: u16,
    },
    HorizonClosingResolved {
        lap: u8,
        session_time: Micro,
        attacker_car_idx: u8,
        defender_car_idx: u8,
    },
    RaceGreen {
        lap: u8,
        session_time: Micro,
        /// No flag was seen: the session already ran at the first frame.
        synthetic: bool,
        origin: LifecycleOrigin,
    },
    FlagYellowFullCourse {
        lap: u8,
        session_time: Micro,
    },
    FlagYellowLocal {
        lap: u8,
        session_time: Micro,
        /// Car index of the vehicle that caused the yellow, if determinable.
        trigger_car_idx: Option<u8>,
        /// Player's track position as a fraction (0.0–1.0) at the time of the yellow.
        lap_dist_pct: Option<Micro>,
        /// Track sector number, if available.
        sector: Option<u8>,
        /// Classification of the yellow relative to the player.
        scope: FlagScope,
        /// Cross-reference to an `IncidentCluster` bucket, if a recent incident
        /// was the likely cause of this yellow.
        linked_incident_id: Option<u32>,
    },
    RaceCheckered {
        lap: u8,
        session_time: Micro,
        /// No flag was seen: the session was already over at the first frame.
        synthetic: bool,
        origin: LifecycleOrigin,
    },
    IracingConnected {
        lap: u8,
        session_time: Micro,
    },
    IracingDisconnected {
        lap: u8,
        session_time: Micro,
    },
    DriverEnteredCar {
        lap: u8,
        session_time: Micro,
        player_car_idx: u8,
    },
    DriverExitedCar {
        lap: u8,
        session_time: Micro,
        player_car_idx: u8,
    },
    Overtake {
        lap: u8,
        session_time: Micro,
        car_idx: u8,
        overtaken_car_idx: Option<u8>,
        position_from: u8,
        position_to: u8,
        positions_gained: u8,
    },
    OvertakeForLead {
        lap: u8,
        session_time: Micro,
        car_idx: u8,
        overtaken_car_idx: Option<u8>,
        position_from: u8,
        positions_gained: u8,
    },
    LapCompleted {
        lap: u8,
        session_time: Micro,
        player_car_idx: u8,
        lap_time_s: Option<Micro>,
        best_lap_time_s: Option<Micro>,
        position: u8,
        pit_frames: u32,
    },
    PitEntry {
        lap: u8,
        session_time: Micro,
        player_car_idx: u8,
        position: u8,
    },
    PitExit {
        lap: u8,
        session_time: Micro,
        player_car_idx: u8,
        position: u8,
    },
    TireDegradation {
        lap: u8,
        session_time: Micro,
        lf_temp_c: Micro,
        rf_temp_c: Micro,
        lr_temp_c: Micro,
        rr_temp_c: Micro,
        lf_slope_c_per_min: Micro,
        rf_slope_c_per_min: Micro,
        lr_slope_c_per_min: Micro,
        rr_slope_c_per_min: Micro,
        hottest_corner: String,
    },
    FuelProjection {
        lap: u8,
        session_time: Micro,
        fuel_remaining_l: Micro,
        fuel_per_lap_l: Micro,
        laps_remaining: Micro,
        is_provisional: bool,
    },
    FuelSavingTechnique {
        lap: u8,
        session_time: Micro,
        coast_duration_s: Micro,
        coast_start_lap_dist_pct: Micro,
        coast_start_speed_mps: Micro,
    },
    IncidentAlert {
        lap: u8,
        session_time: Micro,
        car_idx: u8,
        driver_incident_count: Option<i32>,
        previous_track_surface: i32,
        current_track_surface: i32,
        previous_speed_mps: Micro,
        current_speed_mps: Micro,
        speed_drop_mps: Micro,
        /// Raw, unnormalised magnitude: the speed loss as a fraction of the
        /// prior speed for surface/speed signatures, or the iRacing incident
        /// count delta (1, 2, 4, …) for `incident_count_increase`.
        severity: Micro,
        /// Same magnitude mapped onto 0.0–1.0 regardless of `reason`, so a
        /// quality floor can be applied without knowing the signature.
        severity_normalized: Micro,
        /// iRacing incident points gained, for `incident_count_increase` only.
        incident_count_delta: Option<i32>,
        reason: &'static str,
    },
    MicroSectorGain {
        lap: u8,
        session_time: Micro,
        bucket_from: u8,
        bucket_to: u8,
        lap_dist_pct_from: Micro,
        lap_dist_pct_to: Micro,
        cumulative_delta_s: Micro,
        technique_hint: &'static str,
    },
    MicroSectorLoss {
        lap: u8,
        session_time: Micro,
        bucket_from: u8,
        bucket_to: u8,
        lap_dist_pct_from: Micro,
        lap_dist_pct_to: Micro,
        cumulative_delta_s: Micro,
    },
    BrakingProfile {
        lap: u8,
        session_time: Micro,
        anchor_bucket: u8,
        brake_point_pct: Micro,
        brake_release_pct: Micro,
        peak_brake_pct: Micro,
        braking_energy: Micro,
        entry_speed_mps: Micro,
        min_speed_mps: Micro,
        throttle_release_pct: Micro,
    },
    TrafficIntercept {
        lap: u8,
        session_time: Micro,
        leader_car_idx: u8,
        traffic_car_idx: u8,
        cross_class: bool,
        distance_m: Micro,
        relative_speed_mps: Micro,
        time_to_intercept_s: Micro,
        intercept_bucket: u8,
        intercept_lap_dist_pct: Micro,
        /// Absolute iRacing SessionTime (seconds) at which the intercept is
        /// predicted to occur: `session_time + time_to_intercept_s`.
        /// Use this instead of `time_to_intercept_s` to compute remaining
        /// lead time at read time — it is invariant to pipeline latency.
        predicted_intercept_session_time: Micro,
    },
    VulnerabilityAlert {
        lap: u8,
        session_time: Micro,
        vulnerability: Micro,
        defender_idx: u8,
        attacker_idx: u8,
        tire_contribution: Micro,
        closing_contribution: Micro,
        proximity_contribution: Micro,
        fuel_contribution: Micro,
    },
    VulnerabilityResolved {
        lap: u8,
        session_time: Micro,
        defender_idx: u8,
        attacker_idx: u8,
    },
    IncidentCluster {
        lap: u8,
        session_time: Micro,
        bucket: u8,
        lap_dist_pct_from: Micro,
        lap_dist_pct_to: Micro,
        car_idxs: Vec<u8>,
        severity: Micro,
        /// Most-culpable / dominant car in the incident (lowest car index when
        /// damage data is unavailable).
        primary_car_idx: Option<u8>,
        /// Coarse classification of the incident (e.g. `"Incident"`).
        incident_type: Option<String>,
    },
    IncidentClusterResolved {
        lap: u8,
        session_time: Micro,
        bucket: u8,
    },
    TrafficCompressionZone {
        lap: u8,
        session_time: Micro,
        battle_attacker_idx: u8,
        battle_defender_idx: u8,
        window_start_pct: Micro,
        window_end_pct: Micro,
        traffic_car_idxs: Vec<u8>,
        compression_score: u8,
        first_intercept_car_idx: u8,
        first_intercept_time_s: Micro,
        first_intercept_bucket: u8,
    },
    PublisherHello {
        lap: u8,
        session_time: Micro,
        version: String,
        scope: &'static str,
    },
    PublisherGoodbye {
        lap: u8,
        session_time: Micro,
        /// `shutdown` or `session_transition`.
        reason: &'static str,
        /// The sub-session that is left at a transition.
        previous_sub_session_id: Option<i64>,
    },
    PublisherHeartbeat {
        lap: u8,
        session_time: Micro,
        version: String,
        events_enqueued_total: u64,
    },
    /// Driver pressed their bound "focus on me" wheel button. Car-scoped so
    /// the broadcast agent can resolve the requesting car from the roster.
    FocusMeRequested {
        lap: u8,
        session_time: Micro,
        player_car_idx: u8,
        /// Idempotency key — stable across transport retries.
        request_id: String,
        /// Monotonic per-publisher counter, orders presses inside one tick.
        press_seq: u64,
        /// Stable driver identity: `user:<iRacing userId>` or `name:<normalized>`.
        driver_id: String,
        rig_id: String,
        /// `wheel_button` or `simulated`.
        source: String,
        button: u16,
        /// Wall-clock milliseconds since the Unix epoch.
        requested_at_ms: i64,
        /// Airtime the requesting driver asked for, in milliseconds.
        dwell_ms: u32,
    },
    /// Periodic state of the driver at the wheel of this rig, emitted on a
    /// wall-clock cadence regardless of whether anything notable happened.
    ///
    /// The consumer needs a steady supply of material for the drivers it is
    /// meant to cover: a rig that produces no narrative events for minutes at a
    /// time otherwise looks stale next to a busy midfield battle.
    DriverMaterial {
        lap: u8,
        session_time: Micro,
        player_car_idx: u8,
        position: u8,
        laps_completed: i32,
        lap_dist_pct: Micro,
        last_lap_time_s: Option<Micro>,
        best_lap_time_s: Option<Micro>,
        /// Gap to the car ahead in race order, seconds. `None` when nobody is
        /// within a credible battle gap.
        gap_ahead_s: Option<Micro>,
        car_ahead_idx: Option<u8>,
        gap_behind_s: Option<Micro>,
        car_behind_idx: Option<u8>,
        /// The last lap against the driver's own best.
        delta_to_best_s: Option<Micro>,
        /// The segment that was completed last.
        sector_bucket: Option<u8>,
        sector_delta_to_best_s: Option<Micro>,
        /// `CLOSING`, `OPENING`, `STABLE` or `UNKNOWN`.
        gap_ahead_trend: &'static str,
        gap_behind_trend: &'static str,
        /// `PUSHING` or `HOLDING`.
        effort: &'static str,
        on_pit_road: bool,
        track_surface: i32,
        speed_mps: Micro,
        fuel_level_l: Micro,
        incident_count: i32,
        session_state: i32,
        /// Wall-clock seconds since the previous `DRIVER_MATERIAL` from this rig.
        interval_s: Micro,
    },
    /// The publisher discarded all session-scoped state because iRacing moved to
    /// a different session. Consumers should drop cached car indices, battles,
    /// and driver bindings for `previous_sub_session_id` when they see this.
    SessionReset {
        lap: u8,
        session_time: Micro,
        previous_sub_session_id: Option<i64>,
        sub_session_id: i64,
        previous_session_num: Option<i32>,
        session_num: i32,
        /// Where the session clock stood, if it was the clock that restarted.
        previous_session_time: Option<Micro>,
        /// Machine-readable cause, e.g. `sub_session_changed`.
        reason: &'static str,
    },
    /// Driver pressed their bound pause/resume button. Rig-scoped: it acts on
    /// the broadcast agent, not on a car.
    BroadcastControlRequested {
        lap: u8,
        session_time: Micro,
        /// Always `toggle` — the broadcast agent owns pause/resume state.
        action: String,
        request_id: String,
        press_seq: u64,
        driver_id: String,
        rig_id: String,
        source: String,
        button: u16,
        requested_at_ms: i64,
    },
}

/// Discriminant of [`RaceEvent`]: one variant per emitted event type, with the
/// payload fields stripped.
///
/// This exists so the wire contract can be enumerated without constructing an
/// event of every variant.
#[derive(Clone, Copy, Debug, PartialEq, Eq, Hash, Structural)]
pub enum RaceEventKind {
    BattleEngaged,
    BattleBroken,
    BattleClosing,
    HorizonClosing,
    HorizonClosingResolved,
    RaceGreen,
    FlagYellowFullCourse,
    FlagYellowLocal,
    RaceCheckered,
    IracingConnected,
    IracingDisconnected,
    DriverEnteredCar,
    DriverExitedCar,
    Overtake,
    OvertakeForLead,
    LapCompleted,
    PitEntry,
    PitExit,
    TireDegradation,
    FuelProjection,
    FuelSavingTechnique,
    IncidentAlert,
    MicroSectorGain,
    MicroSectorLoss,
    BrakingProfile,
    TrafficIntercept,
    VulnerabilityAlert,
    VulnerabilityResolved,
    IncidentCluster,
    IncidentClusterResolved,
    TrafficCompressionZone,
    PublisherHello,
    PublisherGoodbye,
    PublisherHeartbeat,
    FocusMeRequested,
    DriverMaterial,
    SessionReset,
    BroadcastControlRequested,
}

/// Wire name of an event type.
pub open spec fn wire_text(kind: RaceEventKind) -> Seq<char> {
    match kind {
        RaceEventKind::BattleEngaged => "BATTLE_ENGAGED"@,
        RaceEventKind::BattleBroken => "BATTLE_BROKEN"@,
        RaceEventKind::BattleClosing => "BATTLE_CLOSING"@,
        RaceEventKind::HorizonClosing => "HORIZON_CLOSING"@,
        RaceEventKind::HorizonClosingResolved => "HORIZON_CLOSING_RESOLVED"@,
        RaceEventKind::RaceGreen => "RACE_GREEN"@,
        RaceEventKind::FlagYellowFullCourse => "FLAG_YELLOW_FULL_COURSE"@,
        RaceEventKind::FlagYellowLocal => "FLAG_YELLOW_LOCAL"@,
        RaceEventKind::RaceCheckered => "RACE_CHECKERED"@,
        RaceEventKind::IracingConnected => "IRACING_CONNECTED"@,
        RaceEventKind::IracingDisconnected => "IRACING_DISCONNECTED"@,
        RaceEventKind::DriverEnteredCar => "DRIVER_ENTERED_CAR"@,
        RaceEventKind::DriverExitedCar => "DRIVER_EXITED_CAR"@,
        RaceEventKind::Overtake => "OVERTAKE"@,
        RaceEventKind::OvertakeForLead => "OVERTAKE_FOR_LEAD"@,
        RaceEventKind::LapCompleted => "LAP_COMPLETED"@,
        RaceEventKind::PitEntry => "PIT_ENTRY"@,
        RaceEventKind::PitExit => "PIT_EXIT"@,
        RaceEventKind::TireDegradation => "TIRE_DEGRADATION"@,
        RaceEventKind::FuelProjection => "FUEL_PROJECTION"@,
        RaceEventKind::FuelSavingTechnique => "FUEL_SAVING_TECHNIQUE"@,
        RaceEventKind::IncidentAlert => "INCIDENT_ALERT"@,
        RaceEventKind::MicroSectorGain => "MICRO_SECTOR_GAIN"@,
        RaceEventKind::MicroSectorLoss => "MICRO_SECTOR_LOSS"@,
        RaceEventKind::BrakingProfile => "BRAKING_PROFILE"@,
        RaceEventKind::TrafficIntercept => "TRAFFIC_INTERCEPT"@,
        RaceEventKind::VulnerabilityAlert => "VULNERABILITY_ALERT"@,
        RaceEventKind::VulnerabilityResolved => "VULNERABILITY_RESOLVED"@,
        RaceEventKind::IncidentCluster => "INCIDENT_CLUSTER"@,
        RaceEventKind::IncidentClusterResolved => "INCIDENT_CLUSTER_RESOLVED"@,
        RaceEventKind::TrafficCompressionZone => "TRAFFIC_COMPRESSION_ZONE"@,
        RaceEventKind::PublisherHello => "PUBLISHER_HELLO"@,
        RaceEventKind::PublisherGoodbye => "PUBLISHER_GOODBYE"@,
        RaceEventKind::PublisherHeartbeat => "PUBLISHER_HEARTBEAT"@,
        RaceEventKind::FocusMeRequested => "FOCUS_ME_REQUESTED"@,
        RaceEventKind::DriverMaterial => "DRIVER_MATERIAL"@,
        RaceEventKind::SessionReset => "SESSION_RESET"@,
        RaceEventKind::BroadcastControlRequested => "BROADCAST_CONTROL_REQUESTED"@,
    }
}

/// Scope of an event type.
pub open spec fn scope_of(kind: RaceEventKind) -> EventScope {
    match kind {
        RaceEventKind::RaceGreen
        | RaceEventKind::RaceCheckered
        | RaceEventKind::FlagYellowFullCourse
        | RaceEventKind::SessionReset => EventScope::SessionScoped,
        RaceEventKind::PublisherHello
        | RaceEventKind::PublisherGoodbye
        | RaceEventKind::PublisherHeartbeat
        | RaceEventKind::IracingConnected
        | RaceEventKind::IracingDisconnected
        | RaceEventKind::BroadcastControlRequested => EventScope::RigScoped,
        _ => EventScope::CarScoped,
    }
}

/// The type of an event.
pub open spec fn kind_of(event: RaceEvent) -> RaceEventKind {
    match event {
        RaceEvent::BattleEngaged { .. } => RaceEventKind::BattleEngaged,
        RaceEvent::BattleBroken { .. } => RaceEventKind::BattleBroken,
        RaceEvent::BattleClosing { .. } => RaceEventKind::BattleClosing,
        RaceEvent::HorizonClosing { .. } => RaceEventKind::HorizonClosing,
        RaceEvent::HorizonClosingResolved { .. } => RaceEventKind::HorizonClosingResolved,
        RaceEvent::RaceGreen { .. } => RaceEventKind::RaceGreen,
        RaceEvent::FlagYellowFullCourse { .. } => RaceEventKind::FlagYellowFullCourse,
        RaceEvent::FlagYellowLocal { .. } => RaceEventKind::FlagYellowLocal,
        RaceEvent::RaceCheckered { .. } => RaceEventKind::RaceCheckered,
        RaceEvent::IracingConnected { .. } => RaceEventKind::IracingConnected,
        RaceEvent::IracingDisconnected { .. } => RaceEventKind::IracingDisconnected,
        RaceEvent::DriverEnteredCar { .. } => RaceEventKind::DriverEnteredCar,
        RaceEvent::DriverExitedCar { .. } => RaceEventKind::DriverExitedCar,
        RaceEvent::Overtake { .. } => RaceEventKind::Overtake,
        RaceEvent::OvertakeForLead { .. } => RaceEventKind::OvertakeForLead,
        RaceEvent::LapCompleted { .. } => RaceEventKind::LapCompleted,
        RaceEvent::PitEntry { .. } => RaceEventKind::PitEntry,
        RaceEvent::PitExit { .. } => RaceEventKind::PitExit,
        RaceEvent::TireDegradation { .. } => RaceEventKind::TireDegradation,
        RaceEvent::FuelProjection { .. } => RaceEventKind::FuelProjection,
        RaceEvent::FuelSavingTechnique { .. } => RaceEventKind::FuelSavingTechnique,
        RaceEvent::IncidentAlert { .. } => RaceEventKind::IncidentAlert,
        RaceEvent::MicroSectorGain { .. } => RaceEventKind::MicroSectorGain,
        RaceEvent::MicroSectorLoss { .. } => RaceEventKind::MicroSectorLoss,
        RaceEvent::BrakingProfile { .. } => RaceEventKind::BrakingProfile,
        RaceEvent::TrafficIntercept { .. } => RaceEventKind::TrafficIntercept,
        RaceEvent::VulnerabilityAlert { .. } => RaceEventKind::VulnerabilityAlert,
        RaceEvent::VulnerabilityResolved { .. } => RaceEventKind::VulnerabilityResolved,
        RaceEvent::IncidentCluster { .. } => RaceEventKind::IncidentCluster,
        RaceEvent::IncidentClusterResolved { .. } => RaceEventKind::IncidentClusterResolved,
        RaceEvent::TrafficCompressionZone { .. } => RaceEventKind::TrafficCompressionZone,
        RaceEvent::PublisherHello { .. } => RaceEventKind::PublisherHello,
        RaceEvent::PublisherGoodbye { .. } => RaceEventKind::PublisherGoodbye,
        RaceEvent::PublisherHeartbeat { .. } => RaceEventKind::PublisherHeartbeat,
        RaceEvent::FocusMeRequested { .. } => RaceEventKind::FocusMeRequested,
        RaceEvent::DriverMaterial { .. } => RaceEventKind::DriverMaterial,
        RaceEvent::SessionReset { .. } => RaceEventKind::SessionReset,
        RaceEvent::BroadcastControlRequested { .. } => RaceEventKind::BroadcastControlRequested,
    }
}

/// Place of an event type in declaration order.
pub open spec fn ordinal(kind: RaceEventKind) -> int {
    match kind {
        RaceEventKind::BattleEngaged => 0,
        RaceEventKind::BattleBroken => 1,
        RaceEventKind::BattleClosing => 2,
        RaceEventKind::HorizonClosing => 3,
        RaceEventKind::HorizonClosingResolved => 4,
        RaceEventKind::RaceGreen => 5,
        RaceEventKind::FlagYellowFullCourse => 6,
        RaceEventKind::FlagYellowLocal => 7,
        RaceEventKind::RaceCheckered => 8,
        RaceEventKind::IracingConnected => 9,
        RaceEventKind::IracingDisconnected => 10,
        RaceEventKind::DriverEnteredCar => 11,
        RaceEventKind::DriverExitedCar => 12,
        RaceEventKind::Overtake => 13,
        RaceEventKind::OvertakeForLead => 14,
        RaceEventKind::LapCompleted => 15,
        RaceEventKind::PitEntry => 16,
        RaceEventKind::PitExit => 17,
        RaceEventKind::TireDegradation => 18,
        RaceEventKind::FuelProjection => 19,
        RaceEventKind::FuelSavingTechnique => 20,
        RaceEventKind::IncidentAlert => 21,
        RaceEventKind::MicroSectorGain => 22,
        RaceEventKind::MicroSectorLoss => 23,
        RaceEventKind::BrakingProfile => 24,
        RaceEventKind::TrafficIntercept => 25,
        RaceEventKind::VulnerabilityAlert => 26,
        RaceEventKind::VulnerabilityResolved => 27,
        RaceEventKind::IncidentCluster => 28,
        RaceEventKind::IncidentClusterResolved => 29,
        RaceEventKind::TrafficCompressionZone => 30,
        RaceEventKind::PublisherHello => 31,
        RaceEventKind::PublisherGoodbye => 32,
        RaceEventKind::PublisherHeartbeat => 33,
        RaceEventKind::FocusMeRequested => 34,
        RaceEventKind::DriverMaterial => 35,
        RaceEventKind::SessionReset => 36,
        RaceEventKind::BroadcastControlRequested => 37,
    }
}

/// How many event types there are.
pub const KIND_COUNT: usize = 38;

impl RaceEventKind {
    /// Every event type the publisher can emit, in declaration order.
    pub fn all() -> (r: Vec<Self>)
        ensures
            r@.len() == KIND_COUNT,
            forall|i: int| 0 <= i < r@.len() ==> ordinal(#[trigger] r@[i]) == i,
    {
        vec![
            RaceEventKind::BattleEngaged,
            RaceEventKind::BattleBroken,
            RaceEventKind::BattleClosing,
            RaceEventKind::HorizonClosing,
            RaceEventKind::HorizonClosingResolved,
            RaceEventKind::RaceGreen,
            RaceEventKind::FlagYellowFullCourse,
            RaceEventKind::FlagYellowLocal,
            RaceEventKind::RaceCheckered,
            RaceEventKind::IracingConnected,
            RaceEventKind::IracingDisconnected,
            RaceEventKind::DriverEnteredCar,
            RaceEventKind::DriverExitedCar,
            RaceEventKind::Overtake,
            RaceEventKind::OvertakeForLead,
            RaceEventKind::LapCompleted,
            RaceEventKind::PitEntry,
            RaceEventKind::PitExit,
            RaceEventKind::TireDegradation,
            RaceEventKind::FuelProjection,
            RaceEventKind::FuelSavingTechnique,
            RaceEventKind::IncidentAlert,
            RaceEventKind::MicroSectorGain,
            RaceEventKind::MicroSectorLoss,
            RaceEventKind::BrakingProfile,
            RaceEventKind::TrafficIntercept,
            RaceEventKind::VulnerabilityAlert,
            RaceEventKind::VulnerabilityResolved,
            RaceEventKind::IncidentCluster,
            RaceEventKind::IncidentClusterResolved,
            RaceEventKind::TrafficCompressionZone,
            RaceEventKind::PublisherHello,
            RaceEventKind::PublisherGoodbye,
            RaceEventKind::PublisherHeartbeat,
            RaceEventKind::FocusMeRequested,
            RaceEventKind::DriverMaterial,
            RaceEventKind::SessionReset,
            RaceEventKind::BroadcastControlRequested,
        ]
    }

    /// Wire value of the envelope's `type` field, e.g. `"BATTLE_ENGAGED"`.
    pub fn event_type(self) -> (r: String)
        ensures
            r@ == wire_text(self),
    {
        self.wire_name().to_owned()
    }

    /// The same as [`RaceEventKind::event_type`], without a copy.
    pub fn wire_name(self) -> (r: &'static str)
        ensures
            r@ == wire_text(self),
    {
        match self {
            RaceEventKind::BattleEngaged => "BATTLE_ENGAGED",
            RaceEventKind::BattleBroken => "BATTLE_BROKEN",
            RaceEventKind::BattleClosing => "BATTLE_CLOSING",
            RaceEventKind::HorizonClosing => "HORIZON_CLOSING",
            RaceEventKind::HorizonClosingResolved => "HORIZON_CLOSING_RESOLVED",
            RaceEventKind::RaceGreen => "RACE_GREEN",
            RaceEventKind::FlagYellowFullCourse => "FLAG_YELLOW_FULL_COURSE",
            RaceEventKind::FlagYellowLocal => "FLAG_YELLOW_LOCAL",
            RaceEventKind::RaceCheckered => "RACE_CHECKERED",
            RaceEventKind::IracingConnected => "IRACING_CONNECTED",
            RaceEventKind::IracingDisconnected => "IRACING_DISCONNECTED",
            RaceEventKind::DriverEnteredCar => "DRIVER_ENTERED_CAR",
            RaceEventKind::DriverExitedCar => "DRIVER_EXITED_CAR",
            RaceEventKind::Overtake => "OVERTAKE",
            RaceEventKind::OvertakeForLead => "OVERTAKE_FOR_LEAD",
            RaceEventKind::LapCompleted => "LAP_COMPLETED",
            RaceEventKind::PitEntry => "PIT_ENTRY",
            RaceEventKind::PitExit => "PIT_EXIT",
            RaceEventKind::TireDegradation => "TIRE_DEGRADATION",
            RaceEventKind::FuelProjection => "FUEL_PROJECTION",
            RaceEventKind::FuelSavingTechnique => "FUEL_SAVING_TECHNIQUE",
            RaceEventKind::IncidentAlert => "INCIDENT_ALERT",
            RaceEventKind::MicroSectorGain => "MICRO_SECTOR_GAIN",
            RaceEventKind::MicroSectorLoss => "MICRO_SECTOR_LOSS",
            RaceEventKind::BrakingProfile => "BRAKING_PROFILE",
            RaceEventKind::TrafficIntercept => "TRAFFIC_INTERCEPT",
            RaceEventKind::VulnerabilityAlert => "VULNERABILITY_ALERT",
            RaceEventKind::VulnerabilityResolved => "VULNERABILITY_RESOLVED",
            RaceEventKind::IncidentCluster => "INCIDENT_CLUSTER",
            RaceEventKind::IncidentClusterResolved => "INCIDENT_CLUSTER_RESOLVED",
            RaceEventKind::TrafficCompressionZone => "TRAFFIC_COMPRESSION_ZONE",
            RaceEventKind::PublisherHello => "PUBLISHER_HELLO",
            RaceEventKind::PublisherGoodbye => "PUBLISHER_GOODBYE",
            RaceEventKind::PublisherHeartbeat => "PUBLISHER_HEARTBEAT",
            RaceEventKind::FocusMeRequested => "FOCUS_ME_REQUESTED",
            RaceEventKind::DriverMaterial => "DRIVER_MATERIAL",
            RaceEventKind::SessionReset => "SESSION_RESET",
            RaceEventKind::BroadcastControlRequested => "BROADCAST_CONTROL_REQUESTED",
        }
    }

    /// Whether the event speaks of a car, of this rig or of the session.
    pub fn scope(self) -> (r: EventScope)
        ensures
            r == scope_of(self),
    {
        match self {
            RaceEventKind::RaceGreen
            | RaceEventKind::RaceCheckered
            | RaceEventKind::FlagYellowFullCourse
            | RaceEventKind::SessionReset => EventScope::SessionScoped,
            RaceEventKind::PublisherHello
            | RaceEventKind::PublisherGoodbye
            | RaceEventKind::PublisherHeartbeat
            | RaceEventKind::IracingConnected
            | RaceEventKind::IracingDisconnected
            | RaceEventKind::BroadcastControlRequested => EventScope::RigScoped,
            RaceEventKind::BattleEngaged
            | RaceEventKind::BattleBroken
            | RaceEventKind::BattleClosing
            | RaceEventKind::HorizonClosing
            | RaceEventKind::HorizonClosingResolved
            | RaceEventKind::FlagYellowLocal
            | RaceEventKind::DriverEnteredCar
            | RaceEventKind::DriverExitedCar
            | RaceEventKind::Overtake
            | RaceEventKind::OvertakeForLead
            | RaceEventKind::LapCompleted
            | RaceEventKind::PitEntry
            | RaceEventKind::PitExit
            | RaceEventKind::TireDegradation
            | RaceEventKind::FuelProjection
            | RaceEventKind::FuelSavingTechnique
            | RaceEventKind::IncidentAlert
            | RaceEventKind::MicroSectorGain
            | RaceEventKind::MicroSectorLoss
            | RaceEventKind::BrakingProfile
            | RaceEventKind::TrafficIntercept
            | RaceEventKind::VulnerabilityAlert
            | RaceEventKind::VulnerabilityResolved
            | RaceEventKind::IncidentCluster
            | RaceEventKind::IncidentClusterResolved
            | RaceEventKind::TrafficCompressionZone
            | RaceEventKind::FocusMeRequested
            | RaceEventKind::DriverMaterial => EventScope::CarScoped,
        }
    }
}

impl RaceEvent {
    /// The type of the event.
    pub fn kind(&self) -> (r: RaceEventKind)
        ensures
            r == kind_of(*self),
    {
        match self {
            RaceEvent::BattleEngaged { .. } => RaceEventKind::BattleEngaged,
            RaceEvent::BattleBroken { .. } => RaceEventKind::BattleBroken,
            RaceEvent::BattleClosing { .. } => RaceEventKind::BattleClosing,
            RaceEvent::HorizonClosing { .. } => RaceEventKind::HorizonClosing,
            RaceEvent::HorizonClosingResolved { .. } => RaceEventKind::HorizonClosingResolved,
            RaceEvent::RaceGreen { .. } => RaceEventKind::RaceGreen,
            RaceEvent::FlagYellowFullCourse { .. } => RaceEventKind::FlagYellowFullCourse,
            RaceEvent::FlagYellowLocal { .. } => RaceEventKind::FlagYellowLocal,
            RaceEvent::RaceCheckered { .. } => RaceEventKind::RaceCheckered,
            RaceEvent::IracingConnected { .. } => RaceEventKind::IracingConnected,
            RaceEvent::IracingDisconnected { .. } => RaceEventKind::IracingDisconnected,
            RaceEvent::DriverEnteredCar { .. } => RaceEventKind::DriverEnteredCar,
            RaceEvent::DriverExitedCar { .. } => RaceEventKind::DriverExitedCar,
            RaceEvent::Overtake { .. } => RaceEventKind::Overtake,
            RaceEvent::OvertakeForLead { .. } => RaceEventKind::OvertakeForLead,
            RaceEvent::LapCompleted { .. } => RaceEventKind::LapCompleted,
            RaceEvent::PitEntry { .. } => RaceEventKind::PitEntry,
            RaceEvent::PitExit { .. } => RaceEventKind::PitExit,
            RaceEvent::TireDegradation { .. } => RaceEventKind::TireDegradation,
            RaceEvent::FuelProjection { .. } => RaceEventKind::FuelProjection,
            RaceEvent::FuelSavingTechnique { .. } => RaceEventKind::FuelSavingTechnique,
            RaceEvent::IncidentAlert { .. } => RaceEventKind::IncidentAlert,
            RaceEvent::MicroSectorGain { .. } => RaceEventKind::MicroSectorGain,
            RaceEvent::MicroSectorLoss { .. } => RaceEventKind::MicroSectorLoss,
            RaceEvent::BrakingProfile { .. } => RaceEventKind::BrakingProfile,
            RaceEvent::TrafficIntercept { .. } => RaceEventKind::TrafficIntercept,
            RaceEvent::VulnerabilityAlert { .. } => RaceEventKind::VulnerabilityAlert,
            RaceEvent::VulnerabilityResolved { .. } => RaceEventKind::VulnerabilityResolved,
            RaceEvent::IncidentCluster { .. } => RaceEventKind::IncidentCluster,
            RaceEvent::IncidentClusterResolved { .. } => RaceEventKind::IncidentClusterResolved,
            RaceEvent::TrafficCompressionZone { .. } => RaceEventKind::TrafficCompressionZone,
            RaceEvent::PublisherHello { .. } => RaceEventKind::PublisherHello,
            RaceEvent::PublisherGoodbye { .. } => RaceEventKind::PublisherGoodbye,
            RaceEvent::PublisherHeartbeat { .. } => RaceEventKind::PublisherHeartbeat,
            RaceEvent::FocusMeRequested { .. } => RaceEventKind::FocusMeRequested,
            RaceEvent::DriverMaterial { .. } => RaceEventKind::DriverMaterial,
            RaceEvent::SessionReset { .. } => RaceEventKind::SessionReset,
            RaceEvent::BroadcastControlRequested { .. } => RaceEventKind::BroadcastControlRequested,
        }
    }

    /// The scope of the event: that of its type.
    pub fn event_scope(&self) -> (r: EventScope)
        ensures
            r == scope_of(kind_of(*self)),
    {
        self.kind().scope()
    }

    /// The lap that the event is of.
    pub fn lap(&self) -> (r: u8)
        ensures
            r == lap_of(*self),
    {
        match self {
            RaceEvent::BattleEngaged { lap, .. } => *lap,
            RaceEvent::BattleBroken { lap, .. } => *lap,
            RaceEvent::BattleClosing { lap, .. } => *lap,
            RaceEvent::HorizonClosing { lap, .. } => *lap,
            RaceEvent::HorizonClosingResolved { lap, .. } => *lap,
            RaceEvent::RaceGreen { lap, .. } => *lap,
            RaceEvent::FlagYellowFullCourse { lap, .. } => *lap,
            RaceEvent::FlagYellowLocal { lap, .. } => *lap,
            RaceEvent::RaceCheckered { lap, .. } => *lap,
            RaceEvent::IracingConnected { lap, .. } => *lap,
            RaceEvent::IracingDisconnected { lap, .. } => *lap,
            RaceEvent::DriverEnteredCar { lap, .. } => *lap,
            RaceEvent::DriverExitedCar { lap, .. } => *lap,
            RaceEvent::Overtake { lap, .. } => *lap,
            RaceEvent::OvertakeForLead { lap, .. } => *lap,
            RaceEvent::LapCompleted { lap, .. } => *lap,
            RaceEvent::PitEntry { lap, .. } => *lap,
            RaceEvent::PitExit { lap, .. } => *lap,
            RaceEvent::TireDegradation { lap, .. } => *lap,
            RaceEvent::FuelProjection { lap, .. } => *lap,
            RaceEvent::FuelSavingTechnique { lap, .. } => *lap,
            RaceEvent::IncidentAlert { lap, .. } => *lap,
            RaceEvent::MicroSectorGain { lap, .. } => *lap,
            RaceEvent::MicroSectorLoss { lap, .. } => *lap,
            RaceEvent::BrakingProfile { lap, .. } => *lap,
            RaceEvent::TrafficIntercept { lap, .. } => *lap,
            RaceEvent::VulnerabilityAlert { lap, .. } => *lap,
            RaceEvent::VulnerabilityResolved { lap, .. } => *lap,
            RaceEvent::IncidentCluster { lap, .. } => *lap,
            RaceEvent::IncidentClusterResolved { lap, .. } => *lap,
            RaceEvent::TrafficCompressionZone { lap, .. } => *lap,
            RaceEvent::PublisherHello { lap, .. } => *lap,
            RaceEvent::PublisherGoodbye { lap, .. } => *lap,
            RaceEvent::PublisherHeartbeat { lap, .. } => *lap,
            RaceEvent::FocusMeRequested { lap, .. } => *lap,
            RaceEvent::DriverMaterial { lap, .. } => *lap,
            RaceEvent::SessionReset { lap, .. } => *lap,
            RaceEvent::BroadcastControlRequested { lap, .. } => *lap,
        }
    }

    /// The session time of the event.
    pub fn session_time(&self) -> (r: Micro)
        ensures
            r == time_of(*self),
    {
        match self {
            RaceEvent::BattleEngaged { session_time, .. } => *session_time,
            RaceEvent::BattleBroken { session_time, .. } => *session_time,
            RaceEvent::BattleClosing { session_time, .. } => *session_time,
            RaceEvent::HorizonClosing { session_time, .. } => *session_time,
            RaceEvent::HorizonClosingResolved { session_time, .. } => *session_time,
            RaceEvent::RaceGreen { session_time, .. } => *session_time,
            RaceEvent::FlagYellowFullCourse { session_time, .. } => *session_time,
            RaceEvent::FlagYellowLocal { session_time, .. } => *session_time,
            RaceEvent::RaceCheckered { session_time, .. } => *session_time,
            RaceEvent::IracingConnected { session_time, .. } => *session_time,
            RaceEvent::IracingDisconnected { session_time, .. } => *session_time,
            RaceEvent::DriverEnteredCar { session_time, .. } => *session_time,
            RaceEvent::DriverExitedCar { session_time, .. } => *session_time,
            RaceEvent::Overtake { session_time, .. } => *session_time,
            RaceEvent::OvertakeForLead { session_time, .. } => *session_time,
            RaceEvent::LapCompleted { session_time, .. } => *session_time,
            RaceEvent::PitEntry { session_time, .. } => *session_time,
            RaceEvent::PitExit { session_time, .. } => *session_time,
            RaceEvent::TireDegradation { session_time, .. } => *session_time,
            RaceEvent::FuelProjection { session_time, .. } => *session_time,
            RaceEvent::FuelSavingTechnique { session_time, .. } => *session_time,
            RaceEvent::IncidentAlert { session_time, .. } => *session_time,
            RaceEvent::MicroSectorGain { session_time, .. } => *session_time,
            RaceEvent::MicroSectorLoss { session_time, .. } => *session_time,
            RaceEvent::BrakingProfile { session_time, .. } => *session_time,
            RaceEvent::TrafficIntercept { session_time, .. } => *session_time,
            RaceEvent::VulnerabilityAlert { session_time, .. } => *session_time,
            RaceEvent::VulnerabilityResolved { session_time, .. } => *session_time,
            RaceEvent::IncidentCluster { session_time, .. } => *session_time,
            RaceEvent::IncidentClusterResolved { session_time, .. } => *session_time,
            RaceEvent::TrafficCompressionZone { session_time, .. } => *session_time,
            RaceEvent::PublisherHello { session_time, .. } => *session_time,
            RaceEvent::PublisherGoodbye { session_time, .. } => *session_time,
            RaceEvent::PublisherHeartbeat { session_time, .. } => *session_time,
            RaceEvent::FocusMeRequested { session_time, .. } => *session_time,
            RaceEvent::DriverMaterial { session_time, .. } => *session_time,
            RaceEvent::SessionReset { session_time, .. } => *session_time,
            RaceEvent::BroadcastControlRequested { session_time, .. } => *session_time,
        }
    }
}

/// The lap that an event is of.
pub open spec fn lap_of(event: RaceEvent) -> u8 {
    match event {
        RaceEvent::BattleEngaged { lap, .. } => lap,
        RaceEvent::BattleBroken { lap, .. } => lap,
        RaceEvent::BattleClosing { lap, .. } => lap,
        RaceEvent::HorizonClosing { lap, .. } => lap,
        RaceEvent::HorizonClosingResolved { lap, .. } => lap,
        RaceEvent::RaceGreen { lap, .. } => lap,
        RaceEvent::FlagYellowFullCourse { lap, .. } => lap,
        RaceEvent::FlagYellowLocal { lap, .. } => lap,
        RaceEvent::RaceCheckered { lap, .. } => lap,
        RaceEvent::IracingConnected { lap, .. } => lap,
        RaceEvent::IracingDisconnected { lap, .. } => lap,
        RaceEvent::DriverEnteredCar { lap, .. } => lap,
        RaceEvent::DriverExitedCar { lap, .. } => lap,
        RaceEvent::Overtake { lap, .. } => lap,
        RaceEvent::OvertakeForLead { lap, .. } => lap,
        RaceEvent::LapCompleted { lap, .. } => lap,
        RaceEvent::PitEntry { lap, .. } => lap,
        RaceEvent::PitExit { lap, .. } => lap,
        RaceEvent::TireDegradation { lap, .. } => lap,
        RaceEvent::FuelProjection { lap, .. } => lap,
        RaceEvent::FuelSavingTechnique { lap, .. } => lap,
        RaceEvent::IncidentAlert { lap, .. } => lap,
        RaceEvent::MicroSectorGain { lap, .. } => lap,
        RaceEvent::MicroSectorLoss { lap, .. } => lap,
        RaceEvent::BrakingProfile { lap, .. } => lap,
        RaceEvent::TrafficIntercept { lap, .. } => lap,
        RaceEvent::VulnerabilityAlert { lap, .. } => lap,
        RaceEvent::VulnerabilityResolved { lap, .. } => lap,
        RaceEvent::IncidentCluster { lap, .. } => lap,
        RaceEvent::IncidentClusterResolved { lap, .. } => lap,
        RaceEvent::TrafficCompressionZone { lap, .. } => lap,
        RaceEvent::PublisherHello { lap, .. } => lap,
        RaceEvent::PublisherGoodbye { lap, .. } => lap,
        RaceEvent::PublisherHeartbeat { lap, .. } => lap,
        RaceEvent::FocusMeRequested { lap, .. } => lap,
        RaceEvent::DriverMaterial { lap, .. } => lap,
        RaceEvent::SessionReset { lap, .. } => lap,
        RaceEvent::BroadcastControlRequested { lap, .. } => lap,
    }
}

/// The session time of an event.
pub open spec fn time_of(event: RaceEvent) -> Micro {
    match event {
        RaceEvent::BattleEngaged { session_time, .. } => session_time,
        RaceEvent::BattleBroken { session_time, .. } => session_time,
        RaceEvent::BattleClosing { session_time, .. } => session_time,
        RaceEvent::HorizonClosing { session_time, .. } => session_time,
        RaceEvent::HorizonClosingResolved { session_time, .. } => session_time,
        RaceEvent::RaceGreen { session_time, .. } => session_time,
        RaceEvent::FlagYellowFullCourse { session_time, .. } => session_time,
        RaceEvent::FlagYellowLocal { session_time, .. } => session_time,
        RaceEvent::RaceCheckered { session_time, .. } => session_time,
        RaceEvent::IracingConnected { session_time, .. } => session_time,
        RaceEvent::IracingDisconnected { session_time, .. } => session_time,
        RaceEvent::DriverEnteredCar { session_time, .. } => session_time,
        RaceEvent::DriverExitedCar { session_time, .. } => session_time,
        RaceEvent::Overtake { session_time, .. } => session_time,
        RaceEvent::OvertakeForLead { session_time, .. } => session_time,
        RaceEvent::LapCompleted { session_time, .. } => session_time,
        RaceEvent::PitEntry { session_time, .. } => session_time,
        RaceEvent::PitExit { session_time, .. } => session_time,
        RaceEvent::TireDegradation { session_time, .. } => session_time,
        RaceEvent::FuelProjection { session_time, .. } => session_time,
        RaceEvent::FuelSavingTechnique { session_time, .. } => session_time,
        RaceEvent::IncidentAlert { session_time, .. } => session_time,
        RaceEvent::MicroSectorGain { session_time, .. } => session_time,
        RaceEvent::MicroSectorLoss { session_time, .. } => session_time,
        RaceEvent::BrakingProfile { session_time, .. } => session_time,
        RaceEvent::TrafficIntercept { session_time, .. } => session_time,
        RaceEvent::VulnerabilityAlert { session_time, .. } => session_time,
        RaceEvent::VulnerabilityResolved { session_time, .. } => session_time,
        RaceEvent::IncidentCluster { session_time, .. } => session_time,
        RaceEvent::IncidentClusterResolved { session_time, .. } => session_time,
        RaceEvent::TrafficCompressionZone { session_time, .. } => session_time,
        RaceEvent::PublisherHello { session_time, .. } => session_time,
        RaceEvent::PublisherGoodbye { session_time, .. } => session_time,
        RaceEvent::PublisherHeartbeat { session_time, .. } => session_time,
        RaceEvent::FocusMeRequested { session_time, .. } => session_time,
        RaceEvent::DriverMaterial { session_time, .. } => session_time,
        RaceEvent::SessionReset { session_time, .. } => session_time,
        RaceEvent::BroadcastControlRequested { session_time, .. } => session_time,
    }
}

/// Every event type is listed once: it stands at its own place in the list.
pub proof fn every_kind_is_listed_once(list: Seq<RaceEventKind>, kind: RaceEventKind)
    requires
        list.len() == KIND_COUNT,
        forall|i: int| 0 <= i < list.len() ==> ordinal(#[trigger] list[i]) == i,
    ensures
        0 <= ordinal(kind) < KIND_COUNT,
        list[ordinal(kind)] == kind,
        forall|i: int| 0 <= i < list.len() && #[trigger] list[i] == kind ==> i == ordinal(kind),
{
}

/// Length, first and last character of a text in one number.
spec fn signature(s: Seq<char>) -> int {
    s.len() * 65536 + s[0] as int * 256 + s[s.len() - 1] as int
}

/// Each wire name has a signature of its own.
proof fn lemma_signatures(kind: RaceEventKind)
    ensures
        signature(wire_text(kind)) == (match kind {
            RaceEventKind::BattleEngaged => 934468int,
            RaceEventKind::BattleBroken => 868942int,
            RaceEventKind::BattleClosing => 934471int,
            RaceEventKind::HorizonClosing => 1001543int,
            RaceEventKind::HorizonClosingResolved => 1591364int,
            RaceEventKind::RaceGreen => 676430int,
            RaceEventKind::FlagYellowFullCourse => 1525317int,
            RaceEventKind::FlagYellowLocal => 1132108int,
            RaceEventKind::RaceCheckered => 938564int,
            RaceEventKind::IracingConnected => 1132868int,
            RaceEventKind::IracingDisconnected => 1329476int,
            RaceEventKind::DriverEnteredCar => 1197138int,
            RaceEventKind::DriverExitedCar => 1131602int,
            RaceEventKind::Overtake => 544581int,
            RaceEventKind::OvertakeForLead => 1134404int,
            RaceEventKind::LapCompleted => 871492int,
            RaceEventKind::PitEntry => 610393int,
            RaceEventKind::PitExit => 544852int,
            RaceEventKind::TireDegradation => 1070158int,
            RaceEventKind::FuelProjection => 1001038int,
            RaceEventKind::FuelSavingTechnique => 1394245int,
            RaceEventKind::IncidentAlert => 936276int,
            RaceEventKind::MicroSectorGain => 1133902int,
            RaceEventKind::MicroSectorLoss => 1133907int,
            RaceEventKind::BrakingProfile => 1000005int,
            RaceEventKind::TrafficIntercept => 1135700int,
            RaceEventKind::VulnerabilityAlert => 1267284int,
            RaceEventKind::VulnerabilityResolved => 1463876int,
            RaceEventKind::IncidentCluster => 1067346int,
            RaceEventKind::IncidentClusterResolved => 1657156int,
            RaceEventKind::TrafficCompressionZone => 1594437int,
            RaceEventKind::PublisherHello => 1003599int,
            RaceEventKind::PublisherGoodbye => 1134661int,
            RaceEventKind::PublisherHeartbeat => 1265748int,
            RaceEventKind::FocusMeRequested => 1197636int,
            RaceEventKind::DriverMaterial => 1000524int,
            RaceEventKind::SessionReset => 873300int,
            RaceEventKind::BroadcastControlRequested => 1786436int,
        }),
{
    match kind {
        RaceEventKind::BattleEngaged => {
            reveal_strlit("BATTLE_ENGAGED");
        },
        RaceEventKind::BattleBroken => {
            reveal_strlit("BATTLE_BROKEN");
        },
        RaceEventKind::BattleClosing => {
            reveal_strlit("BATTLE_CLOSING");
        },
        RaceEventKind::HorizonClosing => {
            reveal_strlit("HORIZON_CLOSING");
        },
        RaceEventKind::HorizonClosingResolved => {
            reveal_strlit("HORIZON_CLOSING_RESOLVED");
        },
        RaceEventKind::RaceGreen => {
            reveal_strlit("RACE_GREEN");
        },
        RaceEventKind::FlagYellowFullCourse => {
            reveal_strlit("FLAG_YELLOW_FULL_COURSE");
        },
        RaceEventKind::FlagYellowLocal => {
            reveal_strlit("FLAG_YELLOW_LOCAL");
        },
        RaceEventKind::RaceCheckered => {
            reveal_strlit("RACE_CHECKERED");
        },
        RaceEventKind::IracingConnected => {
            reveal_strlit("IRACING_CONNECTED");
        },
        RaceEventKind::IracingDisconnected => {
            reveal_strlit("IRACING_DISCONNECTED");
        },
        RaceEventKind::DriverEnteredCar => {
            reveal_strlit("DRIVER_ENTERED_CAR");
        },
        RaceEventKind::DriverExitedCar => {
            reveal_strlit("DRIVER_EXITED_CAR");
        },
        RaceEventKind::Overtake => {
            reveal_strlit("OVERTAKE");
        },
        RaceEventKind::OvertakeForLead => {
            reveal_strlit("OVERTAKE_FOR_LEAD");
        },
        RaceEventKind::LapCompleted => {
            reveal_strlit("LAP_COMPLETED");
        },
        RaceEventKind::PitEntry => {
            reveal_strlit("PIT_ENTRY");
        },
        RaceEventKind::PitExit => {
            reveal_strlit("PIT_EXIT");
        },
        RaceEventKind::TireDegradation => {
            reveal_strlit("TIRE_DEGRADATION");
        },
        RaceEventKind::FuelProjection => {
            reveal_strlit("FUEL_PROJECTION");
        },
        RaceEventKind::FuelSavingTechnique => {
            reveal_strlit("FUEL_SAVING_TECHNIQUE");
        },
        RaceEventKind::IncidentAlert => {
            reveal_strlit("INCIDENT_ALERT");
        },
        RaceEventKind::MicroSectorGain => {
            reveal_strlit("MICRO_SECTOR_GAIN");
        },
        RaceEventKind::MicroSectorLoss => {
            reveal_strlit("MICRO_SECTOR_LOSS");
        },
        RaceEventKind::BrakingProfile => {
            reveal_strlit("BRAKING_PROFILE");
        },
        RaceEventKind::TrafficIntercept => {
            reveal_strlit("TRAFFIC_INTERCEPT");
        },
        RaceEventKind::VulnerabilityAlert => {
            reveal_strlit("VULNERABILITY_ALERT");
        },
        RaceEventKind::VulnerabilityResolved => {
            reveal_strlit("VULNERABILITY_RESOLVED");
        },
        RaceEventKind::IncidentCluster => {
            reveal_strlit("INCIDENT_CLUSTER");
        },
        RaceEventKind::IncidentClusterResolved => {
            reveal_strlit("INCIDENT_CLUSTER_RESOLVED");
        },
        RaceEventKind::TrafficCompressionZone => {
            reveal_strlit("TRAFFIC_COMPRESSION_ZONE");
        },
        RaceEventKind::PublisherHello => {
            reveal_strlit("PUBLISHER_HELLO");
        },
        RaceEventKind::PublisherGoodbye => {
            reveal_strlit("PUBLISHER_GOODBYE");
        },
        RaceEventKind::PublisherHeartbeat => {
            reveal_strlit("PUBLISHER_HEARTBEAT");
        },
        RaceEventKind::FocusMeRequested => {
            reveal_strlit("FOCUS_ME_REQUESTED");
        },
        RaceEventKind::DriverMaterial => {
            reveal_strlit("DRIVER_MATERIAL");
        },
        RaceEventKind::SessionReset => {
            reveal_strlit("SESSION_RESET");
        },
        RaceEventKind::BroadcastControlRequested => {
            reveal_strlit("BROADCAST_CONTROL_REQUESTED");
        },
    }
}

/// No two event types share a wire name.
pub proof fn wire_names_differ(a: RaceEventKind, b: RaceEventKind)
    ensures
        wire_text(a) == wire_text(b) ==> a == b,
{
    lemma_signatures(a);
    lemma_signatures(b);
}

} // verus!
