//! The rig's own state on a cadence: how the driver runs, also where nothing happens.

use vstd::prelude::*;

use crate::car_registry::surface_of;
use crate::fixed::{clamp, minus, Micro};
use crate::lifecycle::elapsed;
use crate::micro_sector::{MIN_BUCKET_DELTA_S, MIN_STREAK_DELTA_S};
use crate::race_event::RaceEvent;
use crate::rank::Numbered;
use crate::telemetry_frame::TelemetryFrame;

verus! {

/// A gap that changes by less than this between two reports has no trend, in seconds.
pub const GAP_TREND_MIN_S: i64 = 50_000;

/// How the driver runs: laps, neighbours, and the segment that was completed last.
#[derive(Debug, Clone, Copy)]
pub struct Standing {
    pub last_lap_time_s: Option<Micro>,
    pub best_lap_time_s: Option<Micro>,
    pub ahead: Option<Numbered>,
    pub behind: Option<Numbered>,
    pub sector_bucket: Option<u8>,
    pub sector_delta_to_best_s: Option<Micro>,
}

/// When reports are made, and who the neighbours were at the last one.
#[derive(Debug, Clone, Copy)]
pub struct MaterialReport {
    /// `None` where no reports are made.
    pub interval_ms: Option<u64>,
    /// When the timer was last set.
    pub last_ms: Option<u64>,
    pub ahead: Option<Numbered>,
    pub behind: Option<Numbered>,
}

/// Whether the car is in the world and off pit road.
pub open spec fn in_play(frame: TelemetryFrame) -> bool {
    !frame.on_pit_road && surface_of(frame, frame.player_car_idx as int) >= 0
}

/// Laps that the player has completed, none where the frame does not say.
pub open spec fn laps_completed_of(frame: TelemetryFrame) -> i32 {
    if frame.player_car_idx < frame.car_idx_lap_completed@.len() {
        frame.car_idx_lap_completed@[frame.player_car_idx as int]
    } else {
        0
    }
}

/// How a gap changed since the last report; only that to the same car tells.
pub open spec fn trend_of(before: Option<Numbered>, now: Option<Numbered>) -> &'static str {
    match (before, now) {
        (Some(b), Some(n)) => if b.0 != n.0 {
            "UNKNOWN"
        } else if b.1 - n.1 >= GAP_TREND_MIN_S {
            "CLOSING"
        } else if n.1 - b.1 >= GAP_TREND_MIN_S {
            "OPENING"
        } else {
            "STABLE"
        },
        _ => "UNKNOWN",
    }
}

/// The last lap against the best one, where both are known.
pub open spec fn lap_delta(s: Standing) -> Option<Micro> {
    match (s.last_lap_time_s, s.best_lap_time_s) {
        (Some(last), Some(best)) => Some(crate::fixed::clamped(last - best)),
        _ => None,
    }
}

/// Whether the driver pushes: as fast as their own best lap or segment but for jitter,
/// or closing in on the car ahead.
pub open spec fn pushes(m: MaterialReport, s: Standing) -> bool {
    ||| lap_delta(s) matches Some(d) && d < MIN_STREAK_DELTA_S
    ||| s.sector_delta_to_best_s matches Some(d) && d < MIN_BUCKET_DELTA_S
    ||| closing(m, s)
}

/// Whether the gap to the car ahead shrinks.
pub open spec fn closing(m: MaterialReport, s: Standing) -> bool {
    match (m.ahead, s.ahead) {
        (Some(b), Some(n)) => b.0 == n.0 && b.1 - n.1 >= GAP_TREND_MIN_S,
        _ => false,
    }
}

/// The gap to a neighbour.
pub open spec fn gap_to(x: Option<Numbered>) -> Option<Micro> {
    match x {
        Some(n) => Some(n.1),
        None => None,
    }
}

/// The car of a neighbour.
pub open spec fn car_of(x: Option<Numbered>) -> Option<u8> {
    match x {
        Some(n) => Some(n.0),
        None => None,
    }
}

/// Seconds since the timer was set.
pub open spec fn interval_of(m: MaterialReport, now_ms: u64) -> Micro {
    match m.last_ms {
        Some(l) => crate::fixed::clamped(elapsed(l, now_ms) * 1000),
        None => 0,
    }
}

/// The report of a frame.
pub open spec fn report(
    m: MaterialReport,
    frame: TelemetryFrame,
    s: Standing,
    now_ms: u64,
) -> RaceEvent {
    RaceEvent::DriverMaterial {
        lap: frame.lap,
        session_time: frame.session_time,
        player_car_idx: frame.player_car_idx,
        position: frame.player_car_position,
        laps_completed: laps_completed_of(frame),
        lap_dist_pct: frame.lap_dist_pct,
        last_lap_time_s: s.last_lap_time_s,
        best_lap_time_s: s.best_lap_time_s,
        gap_ahead_s: gap_to(s.ahead),
        car_ahead_idx: car_of(s.ahead),
        gap_behind_s: gap_to(s.behind),
        car_behind_idx: car_of(s.behind),
        delta_to_best_s: lap_delta(s),
        sector_bucket: s.sector_bucket,
        sector_delta_to_best_s: s.sector_delta_to_best_s,
        gap_ahead_trend: trend_of(m.ahead, s.ahead),
        gap_behind_trend: trend_of(m.behind, s.behind),
        effort: if pushes(m, s) {
            "PUSHING"
        } else {
            "HOLDING"
        },
        on_pit_road: frame.on_pit_road,
        track_surface: surface_of(frame, frame.player_car_idx as int),
        speed_mps: frame.speed,
        fuel_level_l: frame.fuel_level,
        incident_count: frame.player_incident_count,
        session_state: frame.session_state,
        interval_s: interval_of(m, now_ms),
    }
}

/// Whether the cadence has come round.
pub open spec fn is_due(m: MaterialReport, now_ms: u64) -> bool {
    m.interval_ms matches Some(i) && m.last_ms matches Some(l) && elapsed(l, now_ms) >= i
}

/// Whether a frame is reported: the cadence has come round, the driver is known by
/// name, and the car is in the world and off pit road.
pub open spec fn reports(
    m: MaterialReport,
    frame: TelemetryFrame,
    named: bool,
    now_ms: u64,
) -> bool {
    is_due(m, now_ms) && named && in_play(frame)
}

/// After a frame: the timer is set with a report, and where it runs for the first
/// time; the neighbours are those of the last report, and forgotten on pit road or out
/// of the world.
pub open spec fn reported(
    m: MaterialReport,
    frame: TelemetryFrame,
    s: Standing,
    named: bool,
    now_ms: u64,
) -> MaterialReport {
    let told = reports(m, frame, named, now_ms);
    MaterialReport {
        interval_ms: m.interval_ms,
        last_ms: if m.interval_ms is Some && (m.last_ms is None || told) {
            Some(now_ms)
        } else {
            m.last_ms
        },
        ahead: if told {
            s.ahead
        } else if in_play(frame) {
            m.ahead
        } else {
            None
        },
        behind: if told {
            s.behind
        } else if in_play(frame) {
            m.behind
        } else {
            None
        },
    }
}

/// Reports that begin anew.
pub open spec fn begun(interval_ms: Option<u64>) -> MaterialReport {
    MaterialReport { interval_ms, last_ms: None, ahead: None, behind: None }
}

/// A cadence that is not zero.
pub open spec fn cadence(interval_ms: u64) -> Option<u64> {
    if interval_ms > 0 {
        Some(interval_ms)
    } else {
        None
    }
}

fn trend(before: Option<Numbered>, now: Option<Numbered>) -> (r: &'static str)
    ensures
        r == trend_of(before, now),
{
    match (before, now) {
        (Some(b), Some(n)) => {
            let change: Micro = minus(n.1, b.1);
            if b.0 != n.0 {
                "UNKNOWN"
            } else if change <= -GAP_TREND_MIN_S {
                "CLOSING"
            } else if change >= GAP_TREND_MIN_S {
                "OPENING"
            } else {
                "STABLE"
            }
        },
        _ => "UNKNOWN",
    }
}

impl MaterialReport {
    /// Reports every `interval_ms` milliseconds; `0` makes none.
    pub fn new(interval_ms: u64) -> (r: Self)
        ensures
            r == begun(cadence(interval_ms)),
    {
        let interval_ms: Option<u64> = if interval_ms > 0 {
            Some(interval_ms)
        } else {
            None
        };
        MaterialReport { interval_ms, last_ms: None, ahead: None, behind: None }
    }

    /// Begins anew, as at a change of sub-session.
    pub fn restart(&mut self)
        ensures
            *final(self) == begun(old(self).interval_ms),
    {
        self.last_ms = None;
        self.ahead = None;
        self.behind = None;
    }

    /// Whether the cadence has come round.
    fn due(&self, now_ms: u64) -> (r: bool)
        ensures
            r == is_due(*self, now_ms),
    {
        match (self.interval_ms, self.last_ms) {
            (Some(i), Some(l)) => now_ms.saturating_sub(l) >= i,
            _ => false,
        }
    }

    /// Takes in one frame and gives its report, where it is reported.
    pub fn observe(
        &mut self,
        frame: &TelemetryFrame,
        s: &Standing,
        named: bool,
        now_ms: u64,
    ) -> (r: Option<RaceEvent>)
        ensures
            *final(self) == reported(*old(self), *frame, *s, named, now_ms),
            r == (if reports(*old(self), *frame, named, now_ms) {
                Some(report(*old(self), *frame, *s, now_ms))
            } else {
                None
            }),
    {
        let car: usize = frame.player_car_idx as usize;
        let surface: i32 = if car < frame.car_idx_track_surface.len() {
            frame.car_idx_track_surface[car]
        } else {
            0
        };
        let there: bool = !frame.on_pit_road && surface >= 0;
        let found: Option<RaceEvent> = if self.due(now_ms) && named && there {
            Some(self.tell(frame, s, surface, now_ms))
        } else {
            None
        };
        if found.is_some() {
            self.ahead = s.ahead;
            self.behind = s.behind;
        } else if !there {
            self.ahead = None;
            self.behind = None;
        }
        if self.interval_ms.is_some() && (self.last_ms.is_none() || found.is_some()) {
            self.last_ms = Some(now_ms);
        }
        found
    }

    fn tell(&self, frame: &TelemetryFrame, s: &Standing, surface: i32, now_ms: u64) -> (r:
        RaceEvent)
        requires
            surface == surface_of(*frame, frame.player_car_idx as int),
        ensures
            r == report(*self, *frame, *s, now_ms),
    {
        let car: usize = frame.player_car_idx as usize;
        let delta_to_best_s: Option<Micro> = match (s.last_lap_time_s, s.best_lap_time_s) {
            (Some(last), Some(best)) => Some(minus(last, best)),
            _ => None,
        };
        let on_lap: bool = match delta_to_best_s {
            Some(d) => d < MIN_STREAK_DELTA_S,
            None => false,
        };
        let on_sector: bool = match s.sector_delta_to_best_s {
            Some(d) => d < MIN_BUCKET_DELTA_S,
            None => false,
        };
        let on_rival: bool = match (self.ahead, s.ahead) {
            (Some(b), Some(n)) => b.0 == n.0 && minus(b.1, n.1) >= GAP_TREND_MIN_S,
            _ => false,
        };
        let interval_s: Micro = match self.last_ms {
            Some(l) => clamp(now_ms.saturating_sub(l) as i128 * 1000),
            None => 0,
        };
        RaceEvent::DriverMaterial {
            lap: frame.lap,
            session_time: frame.session_time,
            player_car_idx: frame.player_car_idx,
            position: frame.player_car_position,
            laps_completed: if car < frame.car_idx_lap_completed.len() {
                frame.car_idx_lap_completed[car]
            } else {
                0
            },
            lap_dist_pct: frame.lap_dist_pct,
            last_lap_time_s: s.last_lap_time_s,
            best_lap_time_s: s.best_lap_time_s,
            gap_ahead_s: match s.ahead {
                Some(n) => Some(n.1),
                None => None,
            },
            car_ahead_idx: match s.ahead {
                Some(n) => Some(n.0),
                None => None,
            },
            gap_behind_s: match s.behind {
                Some(n) => Some(n.1),
                None => None,
            },
            car_behind_idx: match s.behind {
                Some(n) => Some(n.0),
                None => None,
            },
            delta_to_best_s,
            sector_bucket: s.sector_bucket,
            sector_delta_to_best_s: s.sector_delta_to_best_s,
            gap_ahead_trend: trend(self.ahead, s.ahead),
            gap_behind_trend: trend(self.behind, s.behind),
            effort: if on_lap || on_sector || on_rival {
                "PUSHING"
            } else {
                "HOLDING"
            },
            on_pit_road: frame.on_pit_road,
            track_surface: surface,
            speed_mps: frame.speed,
            fuel_level_l: frame.fuel_level,
            incident_count: frame.player_incident_count,
            session_state: frame.session_state,
            interval_s,
        }
    }
}

/// A quiet stint still has its reports: with a driver who is known by name and a car
/// that is in play, a frame is reported as soon as an interval has passed since the
/// last report, and no earlier.
pub proof fn every_interval_has_its_report(
    m: MaterialReport,
    frame: TelemetryFrame,
    interval_ms: u64,
    last_ms: u64,
    now_ms: u64,
)
    requires
        m.interval_ms == Some(interval_ms),
        m.last_ms == Some(last_ms),
        in_play(frame),
    ensures
        reports(m, frame, true, now_ms) <==> elapsed(last_ms, now_ms) >= interval_ms,
{
}

/// A stop gives no trend: after a frame on pit road or out of the world the next
/// report knows of none.
pub proof fn a_stop_gives_no_trend(
    m: MaterialReport,
    stop: TelemetryFrame,
    s: Standing,
    named: bool,
    now_ms: u64,
    next: Option<Numbered>,
)
    requires
        !in_play(stop),
    ensures
        !reports(m, stop, named, now_ms),
        trend_of(reported(m, stop, s, named, now_ms).ahead, next) == "UNKNOWN",
        trend_of(reported(m, stop, s, named, now_ms).behind, next) == "UNKNOWN",
{
}

/// An interval of zero makes no reports.
pub proof fn no_interval_no_report(
    m: MaterialReport,
    frame: TelemetryFrame,
    s: Standing,
    named: bool,
    now_ms: u64,
)
    requires
        m.interval_ms is None,
    ensures
        !reports(m, frame, named, now_ms),
        reported(m, frame, s, named, now_ms).interval_ms is None,
{
}

/// A gap to the same car that shrank by a twentieth of a second or more since the last
/// report closes, one that grew by as much opens, and any other is stable. Nothing is
/// known of the gap to another car, or where a report had none.
pub proof fn a_trend_is_a_twentieth_of_a_second(
    before: Option<Numbered>,
    now: Option<Numbered>,
)
    ensures
        before is None || now is None ==> trend_of(before, now) == "UNKNOWN",
        before is Some && now is Some && (before->0).0 != (now->0).0 ==> trend_of(before, now)
            == "UNKNOWN",
        before is Some && now is Some && (before->0).0 == (now->0).0 ==> {
            let change = (now->0).1 - (before->0).1;
            &&& change <= -50_000 ==> trend_of(before, now) == "CLOSING"
            &&& change >= 50_000 ==> trend_of(before, now) == "OPENING"
            &&& -50_000 < change < 50_000 ==> trend_of(before, now) == "STABLE"
        },
{
}

/// What a report says: the frame's own values, the neighbours and their gaps, the last
/// lap against the best, and the time since the timer was set. The driver pushes where
/// the last lap is less than two hundredths of a second off the best one, the last
/// segment less than five thousandths, or the car ahead comes nearer by a twentieth.
pub proof fn a_report_says_how_the_driver_runs(
    m: MaterialReport,
    frame: TelemetryFrame,
    s: Standing,
    last_ms: u64,
    now_ms: u64,
)
    requires
        m.last_ms == Some(last_ms),
        last_ms <= now_ms <= 1_000_000_000_000_000,
    ensures
        match report(m, frame, s, now_ms) {
            RaceEvent::DriverMaterial {
                lap,
                session_time,
                player_car_idx,
                position,
                lap_dist_pct,
                last_lap_time_s,
                best_lap_time_s,
                gap_ahead_s,
                car_ahead_idx,
                gap_behind_s,
                car_behind_idx,
                delta_to_best_s,
                sector_bucket,
                sector_delta_to_best_s,
                gap_ahead_trend,
                gap_behind_trend,
                effort,
                on_pit_road,
                speed_mps,
                fuel_level_l,
                incident_count,
                session_state,
                interval_s,
                ..
            } => {
                let near_best = s.last_lap_time_s is Some && s.best_lap_time_s is Some
                    && s.last_lap_time_s->0 - s.best_lap_time_s->0 < 20_000;
                let near_segment = s.sector_delta_to_best_s is Some && s.sector_delta_to_best_s->0
                    < 5_000;
                let comes_nearer = m.ahead is Some && s.ahead is Some && (m.ahead->0).0 == (
                s.ahead->0).0 && (m.ahead->0).1 - (s.ahead->0).1 >= 50_000;
                &&& lap == frame.lap && session_time == frame.session_time
                &&& player_car_idx == frame.player_car_idx
                &&& position == frame.player_car_position
                &&& lap_dist_pct == frame.lap_dist_pct
                &&& last_lap_time_s == s.last_lap_time_s
                &&& best_lap_time_s == s.best_lap_time_s
                &&& s.ahead is Some ==> gap_ahead_s == Some((s.ahead->0).1) && car_ahead_idx
                    == Some((s.ahead->0).0)
                &&& s.ahead is None ==> gap_ahead_s is None && car_ahead_idx is None
                &&& s.behind is Some ==> gap_behind_s == Some((s.behind->0).1)
                    && car_behind_idx == Some((s.behind->0).0)
                &&& s.behind is None ==> gap_behind_s is None && car_behind_idx is None
                &&& delta_to_best_s is Some <==> s.last_lap_time_s is Some && s.best_lap_time_s
                    is Some
                &&& delta_to_best_s is Some && i64::MIN < delta_to_best_s->0 < i64::MAX
                    ==> delta_to_best_s->0 == s.last_lap_time_s->0 - s.best_lap_time_s->0
                &&& sector_bucket == s.sector_bucket
                &&& sector_delta_to_best_s == s.sector_delta_to_best_s
                &&& gap_ahead_trend == trend_of(m.ahead, s.ahead)
                &&& gap_behind_trend == trend_of(m.behind, s.behind)
                &&& near_best || near_segment || comes_nearer ==> effort == "PUSHING"
                &&& !near_best && !near_segment && !comes_nearer ==> effort == "HOLDING"
                &&& on_pit_road == frame.on_pit_road
                &&& speed_mps == frame.speed
                &&& fuel_level_l == frame.fuel_level
                &&& incident_count == frame.player_incident_count
                &&& session_state == frame.session_state
                &&& interval_s == (now_ms - last_ms) * 1_000
            },
            _ => false,
        },
{
}

/// A frame is reported exactly where the interval has passed since the timer was set, the
/// driver is known, the car is off pit road, and its surface is one of the world. With
/// the report the timer is set, and its neighbours are those that the next is held
/// against.
pub proof fn a_frame_is_reported_when_it_is_time(
    m: MaterialReport,
    frame: TelemetryFrame,
    s: Standing,
    named: bool,
    interval_ms: u64,
    last_ms: u64,
    now_ms: u64,
)
    requires
        m.interval_ms == Some(interval_ms),
        m.last_ms == Some(last_ms),
        last_ms <= now_ms,
        frame.player_car_idx < frame.car_idx_track_surface@.len(),
    ensures
        ({
            let there = !frame.on_pit_road
                && frame.car_idx_track_surface@[frame.player_car_idx as int] >= 0;
            let after = reported(m, frame, s, named, now_ms);
            &&& reports(m, frame, named, now_ms) <==> (now_ms - last_ms >= interval_ms && named
                && there)
            &&& reports(m, frame, named, now_ms) ==> after.last_ms == Some(now_ms)
                && after.ahead == s.ahead && after.behind == s.behind
            &&& !reports(m, frame, named, now_ms) ==> after.last_ms == Some(last_ms)
            &&& !reports(m, frame, named, now_ms) && there ==> after.ahead == m.ahead
                && after.behind == m.behind
            &&& !there ==> after.ahead is None && after.behind is None
        }),
{
}

/// The first frame sets the timer and is not reported.
pub proof fn the_first_frame_sets_the_timer(
    m: MaterialReport,
    frame: TelemetryFrame,
    s: Standing,
    named: bool,
    interval_ms: u64,
    now_ms: u64,
)
    requires
        m.interval_ms == Some(interval_ms),
        m.last_ms is None,
    ensures
        !reports(m, frame, named, now_ms),
        reported(m, frame, s, named, now_ms).last_ms == Some(now_ms),
{
}

} // verus!
