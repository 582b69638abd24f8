//! Incidents: cars that leave the surface they were on, or lose their speed.

use std::collections::{HashMap, HashSet};

use vstd::prelude::*;

use crate::car_registry::{CarRegistry, CarState, CarView, RegistryView};
use crate::fixed::{clamp, minus, quotient, unit_clamp, Micro, ONE};
use crate::race_event::RaceEvent;

verus! {

broadcast use vstd::std_specs::hash::group_hash_axioms;

/// Speed loss between two frames that counts as severe, in metres per second.
pub const SPEED_DROP_THRESHOLD_MPS: i64 = 8_000_000;

/// Speed that must have been left behind for a loss to be measured against it.
pub const SPEED_FLOOR_MPS: i64 = 1_000_000;

/// Speed at which a car counts as moving when its incident points rise.
pub const MOVING_MPS: i64 = 5_000_000;

/// Incident points that stand for the full severity.
pub const FULL_INCIDENT_POINTS: i64 = 4;

/// What is kept of a car from one frame to the next.
#[derive(Debug, Clone, Copy, PartialEq, Eq, Structural)]
pub struct CarSnapshot {
    pub track_surface: i32,
    pub on_pit_road: bool,
    pub speed_ema_mps: Micro,
}

/// What a detector holds: each car as it was last seen, the cars whose incident
/// goes on, and the player's incident points.
#[verifier::ext_equal]
pub struct DetectorView {
    pub last_snapshot: Map<u8, CarSnapshot>,
    pub active_alerts: Set<u8>,
    pub last_player_incident_count: Option<i32>,
}

/// When and for whom incidents are looked for.
#[derive(Debug, Clone, Copy, PartialEq, Eq, Structural)]
pub struct Moment {
    pub lap: u8,
    pub session_time: Micro,
    pub player_car_idx: u8,
    pub player_incident_count: i32,
}

/// A car as it is kept.
pub open spec fn snapshot_of(car: CarView) -> CarSnapshot {
    CarSnapshot {
        track_surface: car.track_surface,
        on_pit_road: car.on_pit_road,
        speed_ema_mps: car.speed_ema_mps,
    }
}

/// Speed that was lost, never negative.
pub open spec fn speed_lost(prev: CarSnapshot, now: CarSnapshot) -> Micro {
    if prev.speed_ema_mps > now.speed_ema_mps {
        crate::fixed::clamped(prev.speed_ema_mps - now.speed_ema_mps)
    } else {
        0
    }
}

/// A severe loss: large, and no more than four fifths of the speed are left.
pub open spec fn severe(prev: CarSnapshot, now: CarSnapshot) -> bool {
    speed_lost(prev, now) >= SPEED_DROP_THRESHOLD_MPS && prev.speed_ema_mps > SPEED_FLOOR_MPS && 5
        * now.speed_ema_mps <= 4 * prev.speed_ema_mps
}

/// An incident: off pit road before and after, the surface changed or the speed
/// collapsed.
pub open spec fn is_incident(prev: CarSnapshot, now: CarSnapshot) -> bool {
    !now.on_pit_road && !prev.on_pit_road && (now.track_surface != prev.track_surface || severe(
        prev,
        now,
    ))
}

/// What gave an incident away.
pub open spec fn reason_of(prev: CarSnapshot, now: CarSnapshot) -> &'static str {
    if now.track_surface != prev.track_surface && severe(prev, now) {
        "surface_change_and_speed_drop"
    } else if severe(prev, now) {
        "speed_drop"
    } else if now.track_surface < prev.track_surface {
        "surface_drop"
    } else {
        "surface_change"
    }
}

/// Share of the speed that was lost.
pub open spec fn severity_of(prev: CarSnapshot, now: CarSnapshot) -> Micro {
    let base = if prev.speed_ema_mps > SPEED_FLOOR_MPS {
        prev.speed_ema_mps as int
    } else {
        SPEED_FLOOR_MPS as int
    };
    crate::fixed::clamped(speed_lost(prev, now) as int * ONE as int / base)
}

/// The alert for a car that was `prev` and is `now`.
pub open spec fn alert_of(
    m: Moment,
    car_idx: u8,
    prev: CarSnapshot,
    now: CarSnapshot,
) -> RaceEvent {
    RaceEvent::IncidentAlert {
        lap: m.lap,
        session_time: m.session_time,
        car_idx,
        driver_incident_count: if car_idx == m.player_car_idx {
            Some(m.player_incident_count)
        } else {
            None
        },
        previous_track_surface: prev.track_surface,
        current_track_surface: now.track_surface,
        previous_speed_mps: prev.speed_ema_mps,
        current_speed_mps: now.speed_ema_mps,
        speed_drop_mps: speed_lost(prev, now),
        severity: severity_of(prev, now),
        severity_normalized: crate::fixed::unit_clamped(severity_of(prev, now) as int),
        incident_count_delta: None,
        reason: reason_of(prev, now),
    }
}

/// Whether a car's incident begins: it has one now and had none going on.
pub open spec fn alerts(d: DetectorView, car: CarView) -> bool {
    d.last_snapshot.contains_key(car.car_idx) && is_incident(
        d.last_snapshot[car.car_idx],
        snapshot_of(car),
    ) && !d.active_alerts.contains(car.car_idx)
}

/// The detector after it has looked at a car.
pub open spec fn looked_at(d: DetectorView, car: CarView) -> DetectorView {
    let now = snapshot_of(car);
    DetectorView {
        last_snapshot: d.last_snapshot.insert(car.car_idx, now),
        active_alerts: if d.last_snapshot.contains_key(car.car_idx) {
            if is_incident(d.last_snapshot[car.car_idx], now) {
                d.active_alerts.insert(car.car_idx)
            } else {
                d.active_alerts.remove(car.car_idx)
            }
        } else {
            d.active_alerts
        },
        ..d
    }
}

/// The detector after it has looked at all cars, and what it found.
pub open spec fn scanned(d: DetectorView, m: Moment, cars: Seq<CarView>) -> (
    DetectorView,
    Seq<RaceEvent>,
)
    decreases cars.len(),
{
    if cars.len() == 0 {
        (d, Seq::empty())
    } else {
        let (rest, events) = scanned(d, m, cars.drop_last());
        let car = cars.last();
        (
            looked_at(rest, car),
            if alerts(rest, car) {
                events.push(
                    alert_of(m, car.car_idx, rest.last_snapshot[car.car_idx], snapshot_of(car)),
                )
            } else {
                events
            },
        )
    }
}

/// Whether one of the alerts is the player's.
pub open spec fn player_alerted(d: DetectorView, m: Moment, cars: Seq<CarView>) -> bool
    decreases cars.len(),
{
    cars.len() > 0 && (player_alerted(d, m, cars.drop_last()) || (cars.last().car_idx
        == m.player_car_idx && alerts(scanned(d, m, cars.drop_last()).0, cars.last())))
}

/// The player as they were before this frame, or as they are where they were not
/// seen before.
pub open spec fn player_before(d: DetectorView, m: Moment, car: CarView) -> CarSnapshot {
    if d.last_snapshot.contains_key(m.player_car_idx) {
        d.last_snapshot[m.player_car_idx]
    } else {
        snapshot_of(car)
    }
}

/// Incident points that the player gained.
pub open spec fn points_gained(d: DetectorView, m: Moment) -> int {
    match d.last_player_incident_count {
        Some(n) => m.player_incident_count - n,
        None => 0,
    }
}

/// Whether the player's points rose on the track: the car is in the world, off
/// pit road, and was moving.
pub open spec fn points_count(d: DetectorView, m: Moment, car: CarView) -> bool {
    points_gained(d, m) > 0 && car.track_surface >= 0 && !car.on_pit_road && player_before(
        d,
        m,
        car,
    ).speed_ema_mps >= MOVING_MPS
}

/// The alert for risen incident points.
pub open spec fn points_alert(d: DetectorView, m: Moment, car: CarView) -> RaceEvent {
    let prev = player_before(d, m, car);
    let gained = points_gained(d, m);
    RaceEvent::IncidentAlert {
        lap: m.lap,
        session_time: m.session_time,
        car_idx: m.player_car_idx,
        driver_incident_count: Some(m.player_incident_count),
        previous_track_surface: prev.track_surface,
        current_track_surface: car.track_surface,
        previous_speed_mps: prev.speed_ema_mps,
        current_speed_mps: car.speed_ema_mps,
        speed_drop_mps: speed_lost(prev, snapshot_of(car)),
        severity: (gained * ONE) as i64,
        severity_normalized: crate::fixed::unit_clamped(gained * ONE / FULL_INCIDENT_POINTS as int),
        incident_count_delta: Some(
            if gained > i32::MAX {
                i32::MAX
            } else {
                gained as i32
            },
        ),
        reason: "incident_count_increase",
    }
}

/// The detector after a frame.
pub open spec fn detector_step(d: DetectorView, m: Moment, reg: RegistryView) -> DetectorView {
    DetectorView {
        last_player_incident_count: Some(m.player_incident_count),
        ..scanned(d, m, crate::car_registry::present(reg.cars)).0
    }
}

/// The alerts of a frame: those of the cars, by index, then the player's points
/// where the player has no alert yet.
pub open spec fn detector_events(d: DetectorView, m: Moment, reg: RegistryView) -> Seq<
    RaceEvent,
> {
    let cars = crate::car_registry::present(reg.cars);
    let events = scanned(d, m, cars).1;
    match crate::car_registry::car_at(reg, m.player_car_idx) {
        Some(car) => if points_count(d, m, car) && !player_alerted(d, m, cars) {
            events.push(points_alert(d, m, car))
        } else {
            events
        },
        None => events,
    }
}

/// Finds incidents by comparing each car with itself one frame before. An
/// incident is reported once, when it begins.
pub struct BasicIncidentDetector {
    last_snapshot: HashMap<u8, CarSnapshot>,
    active_alerts: HashSet<u8>,
    last_player_incident_count: Option<i32>,
}

impl View for BasicIncidentDetector {
    type V = DetectorView;

    closed spec fn view(&self) -> DetectorView {
        DetectorView {
            last_snapshot: self.last_snapshot@,
            active_alerts: self.active_alerts@,
            last_player_incident_count: self.last_player_incident_count,
        }
    }
}

/// A detector that has seen nothing.
pub open spec fn unused_detector() -> DetectorView {
    DetectorView {
        last_snapshot: Map::empty(),
        active_alerts: Set::empty(),
        last_player_incident_count: None,
    }
}

impl Default for BasicIncidentDetector {
    /// A detector that has seen nothing.
    fn default() -> (r: Self)
        ensures
            r@ == unused_detector(),
    {
        BasicIncidentDetector::new()
    }
}

impl BasicIncidentDetector {
    /// A detector that has seen nothing.
    pub fn new() -> (r: Self)
        ensures
            r@ == unused_detector(),
    {
        BasicIncidentDetector {
            last_snapshot: HashMap::new(),
            active_alerts: HashSet::new(),
            last_player_incident_count: None,
        }
    }

    /// Compares the registry with what was seen before and reports the incidents
    /// that begin.
    pub fn update(
        &mut self,
        registry: &CarRegistry,
        lap: u8,
        session_time: Micro,
        _session_tick: i64,
        player_car_idx: u8,
        player_incident_count: i32,
    ) -> (r: Vec<RaceEvent>)
        requires
            registry.wf(),
        ensures
            final(self)@ == detector_step(
                old(self)@,
                (Moment { lap, session_time, player_car_idx, player_incident_count }),
                registry@,
            ),
            r@ == detector_events(
                old(self)@,
                (Moment { lap, session_time, player_car_idx, player_incident_count }),
                registry@,
            ),
    {
        let ghost before = self@;
        let m: Moment = Moment { lap, session_time, player_car_idx, player_incident_count };
        let player_prev: Option<CarSnapshot> = match self.last_snapshot.get(&player_car_idx) {
            Some(s) => Some(*s),
            None => None,
        };
        let gained: i64 = match self.last_player_incident_count {
            Some(n) => player_incident_count as i64 - n as i64,
            None => 0,
        };
        let mut events: Vec<RaceEvent> = Vec::new();
        let mut alerted: bool = false;
        let cars: Vec<&CarState> = registry.active_cars();
        let ghost views = cars@.map_values(|c: &CarState| c@);
        let mut i: usize = 0;
        while i < cars.len()
            invariant
                i <= cars@.len(),
                views == cars@.map_values(|c: &CarState| c@),
                m.player_car_idx == player_car_idx,
                self@ == scanned(before, m, views.take(i as int)).0,
                events@ == scanned(before, m, views.take(i as int)).1,
                alerted == player_alerted(before, m, views.take(i as int)),
            decreases cars.len() - i,
        {
            let car: &CarState = cars[i];
            proof {
                assert(views.take(i + 1).drop_last() =~= views.take(i as int));
                assert(views.take(i + 1).last() == car@);
            }
            if let Some(event) = self.look_at(m, car) {
                events.push(event);
                if car.car_idx == player_car_idx {
                    alerted = true;
                }
            }
            i = i + 1;
        }
        proof {
            assert(views.take(i as int) =~= views);
        }
        if gained > 0 && !alerted {
            if let Some(car) = registry.get(player_car_idx) {
                let now: CarSnapshot = snapshot(car);
                let prev: CarSnapshot = match player_prev {
                    Some(s) => s,
                    None => now,
                };
                if car.track_surface >= 0 && !car.on_pit_road && prev.speed_ema_mps >= MOVING_MPS {
                    let share: i64 = clamp(
                        quotient(gained as i128 * ONE as i128, FULL_INCIDENT_POINTS as i128),
                    );
                    events.push(
                        RaceEvent::IncidentAlert {
                            lap,
                            session_time,
                            car_idx: player_car_idx,
                            driver_incident_count: Some(player_incident_count),
                            previous_track_surface: prev.track_surface,
                            current_track_surface: car.track_surface,
                            previous_speed_mps: prev.speed_ema_mps,
                            current_speed_mps: car.speed_ema_mps,
                            speed_drop_mps: lost(prev, now),
                            severity: gained * ONE,
                            severity_normalized: unit_clamp(share),
                            incident_count_delta: Some(
                                if gained > i32::MAX as i64 {
                                    i32::MAX
                                } else {
                                    gained as i32
                                },
                            ),
                            reason: "incident_count_increase",
                        },
                    );
                }
            }
        }
        self.last_player_incident_count = Some(player_incident_count);
        events
    }

    /// Compares one car with what was seen of it before.
    fn look_at(&mut self, m: Moment, car: &CarState) -> (r: Option<RaceEvent>)
        ensures
            final(self)@ == looked_at(old(self)@, car@),
            r == (if alerts(old(self)@, car@) {
                Some(
                    alert_of(
                        m,
                        car.car_idx,
                        old(self)@.last_snapshot[car.car_idx],
                        snapshot_of(car@),
                    ),
                )
            } else {
                None
            }),
    {
        let now: CarSnapshot = snapshot(car);
        let known: Option<CarSnapshot> = match self.last_snapshot.get(&car.car_idx) {
            Some(s) => Some(*s),
            None => None,
        };
        let mut found: Option<RaceEvent> = None;
        if let Some(prev) = known {
            let changed: bool = now.track_surface != prev.track_surface;
            let drop: Micro = lost(prev, now);
            let collapsed: bool = drop >= SPEED_DROP_THRESHOLD_MPS && prev.speed_ema_mps
                > SPEED_FLOOR_MPS && 5 * (now.speed_ema_mps as i128) <= 4 * (
            prev.speed_ema_mps as i128);
            if !now.on_pit_road && !prev.on_pit_road && (changed || collapsed) {
                if !self.active_alerts.contains(&car.car_idx) {
                    let base: Micro = if prev.speed_ema_mps > SPEED_FLOOR_MPS {
                        prev.speed_ema_mps
                    } else {
                        SPEED_FLOOR_MPS
                    };
                    let severity: Micro = clamp(
                        quotient(drop as i128 * ONE as i128, base as i128),
                    );
                    let reason: &'static str = if changed && collapsed {
                        "surface_change_and_speed_drop"
                    } else if collapsed {
                        "speed_drop"
                    } else if now.track_surface < prev.track_surface {
                        "surface_drop"
                    } else {
                        "surface_change"
                    };
                    found = Some(
                        RaceEvent::IncidentAlert {
                            lap: m.lap,
                            session_time: m.session_time,
                            car_idx: car.car_idx,
                            driver_incident_count: if car.car_idx == m.player_car_idx {
                                Some(m.player_incident_count)
                            } else {
                                None
                            },
                            previous_track_surface: prev.track_surface,
                            current_track_surface: now.track_surface,
                            previous_speed_mps: prev.speed_ema_mps,
                            current_speed_mps: now.speed_ema_mps,
                            speed_drop_mps: drop,
                            severity,
                            severity_normalized: unit_clamp(severity),
                            incident_count_delta: None,
                            reason,
                        },
                    );
                    self.active_alerts.insert(car.car_idx);
                }
            } else {
                self.active_alerts.remove(&car.car_idx);
            }
        }
        self.last_snapshot.insert(car.car_idx, now);
        proof {
            if known is Some && is_incident(known->0, now) && old(self)@.active_alerts.contains(
                car.car_idx,
            ) {
                assert(old(self)@.active_alerts.insert(car.car_idx)
                    =~= old(self)@.active_alerts);
            }
        }
        found
    }
}

fn snapshot(car: &CarState) -> (r: CarSnapshot)
    ensures
        r == snapshot_of(car@),
{
    CarSnapshot {
        track_surface: car.track_surface,
        on_pit_road: car.on_pit_road,
        speed_ema_mps: car.speed_ema_mps,
    }
}

fn lost(prev: CarSnapshot, now: CarSnapshot) -> (r: Micro)
    ensures
        r == speed_lost(prev, now),
{
    if prev.speed_ema_mps > now.speed_ema_mps {
        minus(prev.speed_ema_mps, now.speed_ema_mps)
    } else {
        0
    }
}

/// Those of the alerts that tell of a car's own incident, not of incident points.
pub open spec fn own_alerts(events: Seq<RaceEvent>, car: u8) -> Seq<RaceEvent>
    decreases events.len(),
{
    if events.len() == 0 {
        Seq::empty()
    } else {
        let rest = own_alerts(events.drop_last(), car);
        match events.last() {
            RaceEvent::IncidentAlert { car_idx, incident_count_delta, .. } => if car_idx == car
                && incident_count_delta is None {
                rest.push(events.last())
            } else {
                rest
            },
            _ => rest,
        }
    }
}

/// Whether a car that is seen has an incident.
pub open spec fn has_incident(d: DetectorView, car: CarView) -> bool {
    d.last_snapshot.contains_key(car.car_idx) && is_incident(
        d.last_snapshot[car.car_idx],
        snapshot_of(car),
    )
}

/// What a scan says and keeps of one car depends on that car alone.
proof fn lemma_scan_of_one(d: DetectorView, m: Moment, cars: Seq<Option<CarView>>, c: u8)
    requires
        forall|i: int|
            0 <= i < cars.len() ==> (#[trigger] cars[i] matches Some(x) ==> x.car_idx == i),
    ensures
        ({
            let (after, events) = scanned(d, m, crate::car_registry::present(cars));
            let seen = if c < cars.len() {
                cars[c as int]
            } else {
                None
            };
            match seen {
                Some(car) => {
                    &&& after.last_snapshot.contains_key(c) && after.last_snapshot[c]
                        == snapshot_of(car)
                    &&& after.active_alerts.contains(c) == if d.last_snapshot.contains_key(c) {
                        has_incident(d, car)
                    } else {
                        d.active_alerts.contains(c)
                    }
                    &&& own_alerts(events, c) == if alerts(d, car) {
                        seq![alert_of(m, c, d.last_snapshot[c], snapshot_of(car))]
                    } else {
                        Seq::empty()
                    }
                },
                None => {
                    &&& after.last_snapshot.contains_key(c) == d.last_snapshot.contains_key(c)
                    &&& d.last_snapshot.contains_key(c) ==> after.last_snapshot[c]
                        == d.last_snapshot[c]
                    &&& after.active_alerts.contains(c) == d.active_alerts.contains(c)
                    &&& own_alerts(events, c) == Seq::<RaceEvent>::empty()
                },
            }
        }),
    decreases cars.len(),
{
    if cars.len() > 0 {
        let front = cars.drop_last();
        let n = cars.len() - 1;
        assert forall|i: int| 0 <= i < front.len() implies (#[trigger] front[i] matches Some(x)
            ==> x.car_idx == i) by {
            assert(front[i] == cars[i]);
        }
        lemma_scan_of_one(d, m, front, c);
        let rest = crate::car_registry::present(front);
        let (before, events) = scanned(d, m, rest);
        if let Some(car) = cars[n] {
            assert(rest.push(car).drop_last() =~= rest);
            let e = alert_of(
                m,
                car.car_idx,
                before.last_snapshot[car.car_idx],
                snapshot_of(car),
            );
            assert(events.push(e).drop_last() =~= events);
            if c == n {
                assert(own_alerts(events, c).push(e) =~= seq![e]);
            } else if c < n {
                assert(front[c as int] == cars[c as int]);
            }
        } else if c < n {
            assert(front[c as int] == cars[c as int]);
        }
    }
}

/// A car's own incident is told exactly where it is seen with one and none of it was
/// going on, once. It goes on as long as the car is seen with one, and while the car
/// is not seen; this holds whatever the other cars do.
pub proof fn a_cars_incident_is_told_when_it_begins(
    d: DetectorView,
    m: Moment,
    reg: RegistryView,
    c: u8,
)
    requires
        crate::car_registry::slots_match(reg),
    ensures
        match crate::car_registry::car_at(reg, c) {
            Some(car) => {
                &&& own_alerts(detector_events(d, m, reg), c) == if has_incident(d, car)
                    && !d.active_alerts.contains(c) {
                    seq![alert_of(m, c, d.last_snapshot[c], snapshot_of(car))]
                } else {
                    Seq::empty()
                }
                &&& detector_step(d, m, reg).active_alerts.contains(c)
                    == if d.last_snapshot.contains_key(c) {
                    has_incident(d, car)
                } else {
                    d.active_alerts.contains(c)
                }
            },
            None => {
                &&& own_alerts(detector_events(d, m, reg), c) == Seq::<RaceEvent>::empty()
                &&& detector_step(d, m, reg).active_alerts.contains(c)
                    == d.active_alerts.contains(c)
            },
        },
{
    lemma_scan_of_one(d, m, reg.cars, c);
    let events = scanned(d, m, crate::car_registry::present(reg.cars)).1;
    if let Some(player) = crate::car_registry::car_at(reg, m.player_car_idx) {
        let e = points_alert(d, m, player);
        assert(events.push(e).drop_last() =~= events);
    }
}

/// Edge triggering: as long as a car's incident goes on, it is not reported
/// again.
pub proof fn an_incident_is_reported_once(d: DetectorView, first: CarView, second: CarView)
    requires
        first.car_idx == second.car_idx,
        d.last_snapshot.contains_key(first.car_idx),
        is_incident(d.last_snapshot[first.car_idx], snapshot_of(first)),
    ensures
        !alerts(looked_at(d, first), second),
{
}

/// A car on pit road, or just off it, is in no incident.
pub proof fn no_incident_at_the_pits(prev: CarSnapshot, now: CarSnapshot)
    requires
        prev.on_pit_road || now.on_pit_road,
    ensures
        !is_incident(prev, now),
{
}

/// The share of the speed that an alert reports is between nothing and all of it
/// as long as speeds are not negative.
pub proof fn severity_is_a_share(prev: CarSnapshot, now: CarSnapshot)
    requires
        now.speed_ema_mps >= 0,
    ensures
        0 <= severity_of(prev, now) <= ONE,
{
    let base = if prev.speed_ema_mps > SPEED_FLOOR_MPS {
        prev.speed_ema_mps as int
    } else {
        SPEED_FLOOR_MPS as int
    };
    let drop = speed_lost(prev, now) as int;
    let one = ONE as int;
    assert(0 <= drop * one / base <= one) by (nonlinear_arith)
        requires
            0 <= drop <= base,
            base > 0,
            one > 0,
    ;
}

/// The alerts that name a car.
pub open spec fn alerts_about(events: Seq<RaceEvent>, car: u8) -> Seq<RaceEvent>
    decreases events.len(),
{
    if events.len() == 0 {
        Seq::empty()
    } else {
        let rest = alerts_about(events.drop_last(), car);
        match events.last() {
            RaceEvent::IncidentAlert { car_idx, .. } => if car_idx == car {
                rest.push(events.last())
            } else {
                rest
            },
            _ => rest,
        }
    }
}

/// The alerts that carry a rise of the incident count.
pub open spec fn rises_told(events: Seq<RaceEvent>) -> Seq<RaceEvent>
    decreases events.len(),
{
    if events.len() == 0 {
        Seq::empty()
    } else {
        let rest = rises_told(events.drop_last());
        match events.last() {
            RaceEvent::IncidentAlert { incident_count_delta, .. } => if incident_count_delta
                is Some {
                rest.push(events.last())
            } else {
                rest
            },
            _ => rest,
        }
    }
}

/// What a scan tells carries no rise, and names the player exactly where the player's
/// own incident begins.
proof fn lemma_scan_has_no_rise(d: DetectorView, m: Moment, cars: Seq<CarView>)
    ensures
        rises_told(scanned(d, m, cars).1) == Seq::<RaceEvent>::empty(),
        alerts_about(scanned(d, m, cars).1, m.player_car_idx) == own_alerts(
            scanned(d, m, cars).1,
            m.player_car_idx,
        ),
        player_alerted(d, m, cars) <==> own_alerts(scanned(d, m, cars).1, m.player_car_idx).len()
            > 0,
    decreases cars.len(),
{
    if cars.len() > 0 {
        lemma_scan_has_no_rise(d, m, cars.drop_last());
        let (rest, events) = scanned(d, m, cars.drop_last());
        let car = cars.last();
        let e = alert_of(m, car.car_idx, rest.last_snapshot[car.car_idx], snapshot_of(car));
        assert(events.push(e).drop_last() =~= events);
    }
}

/// Whether a car is in the world and off pit road.
pub open spec fn on_the_track(reg: RegistryView, car: u8) -> bool {
    &&& car < reg.cars.len()
    &&& reg.cars[car as int] is Some
    &&& (reg.cars[car as int]->0).track_surface >= 0
    &&& !(reg.cars[car as int]->0).on_pit_road
}

/// Speed of a car when it was last seen, that of now where it was not seen before.
pub open spec fn speed_before(d: DetectorView, reg: RegistryView, car: u8) -> Micro {
    if d.last_snapshot.contains_key(car) {
        d.last_snapshot[car].speed_ema_mps
    } else {
        (reg.cars[car as int]->0).speed_ema_mps
    }
}

/// Whether an alert tells that the player's incident count rose from `from`: by how much,
/// to what, and as which share of the four points that stand for all.
pub open spec fn tells_of_a_rise(e: RaceEvent, m: Moment, from: i32) -> bool {
    match e {
        RaceEvent::IncidentAlert {
            lap,
            session_time,
            car_idx,
            driver_incident_count,
            severity,
            severity_normalized,
            incident_count_delta,
            reason,
            ..
        } => {
            let gained = m.player_incident_count - from;
            &&& lap == m.lap && session_time == m.session_time
            &&& car_idx == m.player_car_idx
            &&& driver_incident_count == Some(m.player_incident_count)
            &&& incident_count_delta is Some
            &&& gained <= 0x7fff_ffff ==> incident_count_delta->0 == gained
            &&& gained > 0x7fff_ffff ==> incident_count_delta->0 == 0x7fff_ffff
            &&& severity == gained * 1_000_000
            &&& gained >= 4 ==> severity_normalized == 1_000_000
            &&& gained < 4 ==> severity_normalized == gained * 250_000
            &&& reason == "incident_count_increase"
        },
        _ => false,
    }
}

/// A player on the track whose incident count rises, and who was last seen at five
/// metres per second or more, has an alert in that frame. Where no incident of the
/// player's own begins in it, it is one alert, and it tells of the rise.
pub proof fn risen_points_are_told(d: DetectorView, m: Moment, reg: RegistryView, n: i32)
    requires
        d.last_player_incident_count == Some(n),
        m.player_incident_count > n,
        on_the_track(reg, m.player_car_idx),
        speed_before(d, reg, m.player_car_idx) >= 5_000_000,
    ensures
        ({
            let events = detector_events(d, m, reg);
            let player = m.player_car_idx;
            &&& alerts_about(events, player).len() >= 1
            &&& own_alerts(events, player).len() == 0 ==> {
                &&& alerts_about(events, player).len() == 1
                &&& rises_told(events) == alerts_about(events, player)
                &&& tells_of_a_rise(alerts_about(events, player)[0], m, n)
                &&& events.last() == alerts_about(events, player)[0]
            }
            &&& own_alerts(events, player).len() > 0 ==> rises_told(events).len() == 0
        }),
{
    let cars = crate::car_registry::present(reg.cars);
    let car = reg.cars[m.player_car_idx as int]->0;
    let events = scanned(d, m, cars).1;
    let e = points_alert(d, m, car);
    lemma_scan_has_no_rise(d, m, cars);
    assert(events.push(e).drop_last() =~= events);
    assert(alerts_about(events, m.player_car_idx).len() == 0 ==> alerts_about(
        events.push(e),
        m.player_car_idx,
    ) =~= seq![e]);
    assert(rises_told(events.push(e)) =~= seq![e]);
}

/// No alert carries a rise where the count was not known before or does not exceed what
/// it was, nor where the player is not on the track or was slower than five metres per
/// second.
pub proof fn no_rise_is_told_without_one(d: DetectorView, m: Moment, reg: RegistryView)
    requires
        (d.last_player_incident_count matches Some(n) ==> m.player_incident_count <= n)
            || !on_the_track(reg, m.player_car_idx) || speed_before(d, reg, m.player_car_idx)
            < 5_000_000,
    ensures
        rises_told(detector_events(d, m, reg)).len() == 0,
        alerts_about(detector_events(d, m, reg), m.player_car_idx) == own_alerts(
            detector_events(d, m, reg),
            m.player_car_idx,
        ),
{
    lemma_scan_has_no_rise(d, m, crate::car_registry::present(reg.cars));
}

/// The count that the next frame is held against is that of this one.
pub proof fn the_count_is_kept(d: DetectorView, m: Moment, reg: RegistryView)
    ensures
        detector_step(d, m, reg).last_player_incident_count == Some(m.player_incident_count),
{
}

/// Whether a car's speed collapsed: by eight metres per second or more, and by a fifth of
/// what it was or more.
pub open spec fn collapsed(before: Micro, after: Micro) -> bool {
    before - after >= 8_000_000 && 5 * (before - after) >= before && before > 1_000_000
}

/// A car that is off pit road in two frames has an incident in the second exactly where
/// the surface under it is another one or its speed collapsed. What gave it away is said:
/// both, the speed alone, a worse surface, or another one.
pub proof fn an_incident_is_a_new_surface_or_a_collapse(prev: CarSnapshot, now: CarSnapshot)
    ensures
        is_incident(prev, now) <==> (!prev.on_pit_road && !now.on_pit_road && (
        prev.track_surface != now.track_surface || collapsed(
            prev.speed_ema_mps,
            now.speed_ema_mps,
        ))),
        is_incident(prev, now) ==> {
            let fell = collapsed(prev.speed_ema_mps, now.speed_ema_mps);
            &&& fell && prev.track_surface != now.track_surface ==> reason_of(prev, now)
                == "surface_change_and_speed_drop"
            &&& fell && prev.track_surface == now.track_surface ==> reason_of(prev, now)
                == "speed_drop"
            &&& !fell && now.track_surface < prev.track_surface ==> reason_of(prev, now)
                == "surface_drop"
            &&& !fell && now.track_surface > prev.track_surface ==> reason_of(prev, now)
                == "surface_change"
        },
{
}

/// The alert of a car's own incident gives what was and what is, the speed that was
/// lost, and that speed as a share of what the car had, rounded down and no more than
/// all.
pub proof fn an_alert_says_what_was_lost(
    m: Moment,
    car_idx: u8,
    prev: CarSnapshot,
    now: CarSnapshot,
)
    requires
        prev.speed_ema_mps >= 1_000_000,
        now.speed_ema_mps >= 0,
    ensures
        match alert_of(m, car_idx, prev, now) {
            RaceEvent::IncidentAlert {
                lap,
                session_time,
                car_idx: car,
                driver_incident_count,
                previous_track_surface,
                current_track_surface,
                previous_speed_mps,
                current_speed_mps,
                speed_drop_mps,
                severity,
                severity_normalized,
                incident_count_delta,
                ..
            } => {
                &&& lap == m.lap && session_time == m.session_time && car == car_idx
                &&& driver_incident_count is Some <==> car_idx == m.player_car_idx
                &&& driver_incident_count is Some ==> driver_incident_count->0
                    == m.player_incident_count
                &&& previous_track_surface == prev.track_surface
                &&& current_track_surface == now.track_surface
                &&& previous_speed_mps == prev.speed_ema_mps
                &&& current_speed_mps == now.speed_ema_mps
                &&& now.speed_ema_mps <= prev.speed_ema_mps ==> speed_drop_mps
                    == prev.speed_ema_mps - now.speed_ema_mps
                &&& now.speed_ema_mps > prev.speed_ema_mps ==> speed_drop_mps == 0
                &&& severity * prev.speed_ema_mps <= speed_drop_mps * 1_000_000 < (severity + 1)
                    * prev.speed_ema_mps
                &&& severity_normalized == severity
                &&& incident_count_delta is None
            },
            _ => false,
        },
{
    severity_is_a_share(prev, now);
    let base = prev.speed_ema_mps as int;
    let x = speed_lost(prev, now) as int * 1_000_000;
    assert((x / base) * base <= x < (x / base + 1) * base && 0 <= x / base) by (nonlinear_arith)
        requires
            base > 0,
            x >= 0,
    ;
    assert(x / base <= 1_000_000) by (nonlinear_arith)
        requires
            base > 0,
            x <= base * 1_000_000,
    ;
}

} // verus!
