//! The narrative engine: telemetry frames in, race events out.

use vstd::prelude::*;

use crate::anchor_sampler::bucket_at;
use crate::basic_incident::{BasicIncidentDetector, DetectorView, Moment};
use crate::battle_state::{Classification, SCAN_FIELD_POSITIONS};
use crate::car_registry::{CarRegistry, RegistryView};
use crate::engagement::{Engagement, Prior};
use crate::fixed::Micro;
use crate::gap_finder::{find_cars_ahead, find_cars_behind, Side};
use crate::lap_book::{LapBook, LapBookView};
use crate::lap_timer::{LapTimer, LapTimes};
use crate::material::Standing;
use crate::micro_sector::{MicroSectorTracker, SectorView};
use crate::pressure::{make_closing_event, Pressure, PressureView};
use crate::race_event::RaceEvent;
use crate::rank::Numbered;
use crate::session_info::{CarRefView, SessionRoster};
use crate::session_watch::{SessionWatch, CAUTION, YELLOW_WAVE};
use crate::telemetry_frame::TelemetryFrame;

verus! {

/// What the engine remembers from frame to frame.
#[verifier::ext_equal]
pub struct EngineView {
    pub anchor_count: usize,
    pub roster: Map<u8, CarRefView>,
    pub registry: RegistryView,
    pub incidents: DetectorView,
    pub session: SessionWatch,
    pub prev_on_pit: bool,
    pub lap_times: LapTimes,
    pub laps: LapBookView,
    pub lap_clean: bool,
    pub sectors: SectorView,
    pub ahead: PressureView,
    pub behind: PressureView,
    pub fight_ahead: Engagement,
    pub fight_behind: Engagement,
}

/// Known Nürburgring yellow-flag zones. Readings inside them are not clean.
pub open spec fn in_yellow_zone(lap: u8, lap_dist_pct: Micro) -> bool {
    (lap == 1 && 625_000 <= lap_dist_pct <= 646_000) || (lap == 2 && 616_000 <= lap_dist_pct
        <= 623_000)
}

/// Whether the session shows a yellow.
pub open spec fn yellow_shown(flags: u32) -> bool {
    flags & (YELLOW_WAVE | CAUTION) != 0
}

/// Whether a frame is fit for regression: no yellow, no yellow zone, off pit road.
pub open spec fn is_clean(frame: TelemetryFrame) -> bool {
    !yellow_shown(frame.session_flags) && !in_yellow_zone(frame.lap, frame.lap_dist_pct)
        && !frame.on_pit_road
}

/// Whether the player races: holds a position, and is past the first lap's start.
pub open spec fn is_racing(frame: TelemetryFrame) -> bool {
    frame.player_car_position != 0 && frame.lap >= 1
}

/// The pit road events of a frame.
pub open spec fn pit_events(prev_on_pit: bool, frame: TelemetryFrame) -> Seq<RaceEvent> {
    let lap = frame.lap;
    let session_time = frame.session_time;
    let player_car_idx = frame.player_car_idx;
    let position = frame.player_car_position;
    if frame.on_pit_road && !prev_on_pit {
        seq![RaceEvent::PitEntry { lap, session_time, player_car_idx, position }]
    } else if !frame.on_pit_road && prev_on_pit {
        seq![RaceEvent::PitExit { lap, session_time, player_car_idx, position }]
    } else {
        Seq::empty()
    }
}

/// The nearest of the rivals.
pub open spec fn nearest(rivals: Seq<Numbered>) -> Option<Numbered> {
    if rivals.len() > 0 {
        Some(rivals[0])
    } else {
        None
    }
}

/// The player's history with the nearest car.
pub open spec fn prior_with(reg: RegistryView, player: u8, near: Option<Numbered>) -> Prior {
    match near {
        Some(x) => {
            let p = crate::car_registry::prior_of(reg, player, x.0);
            Prior { skirmishes: p.0, attack_time_s: p.1 }
        },
        None => Prior { skirmishes: 0, attack_time_s: 0 },
    }
}

/// The moment of a frame.
pub open spec fn moment_of(frame: TelemetryFrame) -> Moment {
    Moment {
        lap: frame.lap,
        session_time: frame.session_time,
        player_car_idx: frame.player_car_idx,
        player_incident_count: frame.player_incident_count,
    }
}

/// The registry after a frame.
pub open spec fn registry_after(v: EngineView, frame: TelemetryFrame) -> RegistryView {
    crate::car_registry::registry_step(
        v.registry,
        frame,
        v.roster,
        frame.session_tick,
        v.anchor_count,
    )
}

/// What every frame changes, whether the player races or not.
pub open spec fn watch_step(v: EngineView, frame: TelemetryFrame) -> EngineView {
    EngineView {
        registry: registry_after(v, frame),
        incidents: crate::basic_incident::detector_step(
            v.incidents,
            moment_of(frame),
            registry_after(v, frame),
        ),
        session: crate::session_watch::watched(v.session, frame),
        prev_on_pit: frame.on_pit_road,
        ..v
    }
}

/// The events that every frame may have: incidents, session, pit road.
pub open spec fn watch_events(v: EngineView, frame: TelemetryFrame) -> Seq<RaceEvent> {
    crate::basic_incident::detector_events(
        v.incidents,
        moment_of(frame),
        registry_after(v, frame),
    ) + crate::session_watch::session_events(v.session, frame) + pit_events(v.prev_on_pit, frame)
}

/// The rivals of a frame on one side.
pub open spec fn rivals_of(v: EngineView, frame: TelemetryFrame, side: Side) -> Seq<Numbered> {
    let times = crate::lap_timer::timed(v.lap_times, frame.lap, frame.session_time);
    crate::gap_finder::rivals(
        frame,
        crate::lap_timer::estimate(times),
        side,
        SCAN_FIELD_POSITIONS,
        256,
    )
}

/// A direction after the rivals of a frame were sampled.
pub open spec fn sampled_side(
    p: PressureView,
    rivals: Seq<Numbered>,
    frame: TelemetryFrame,
) -> PressureView {
    PressureView {
        sampler: crate::pressure::sampled_all(
            p.sampler,
            rivals,
            frame.lap,
            frame.lap_dist_pct,
            is_clean(frame),
        ),
        ..p
    }
}

/// What a racing frame changes before a lap is closed.
pub open spec fn gap_step(v: EngineView, frame: TelemetryFrame) -> EngineView {
    let ahead = rivals_of(v, frame, Side::Ahead);
    let behind = rivals_of(v, frame, Side::Behind);
    EngineView {
        lap_times: crate::lap_timer::timed(v.lap_times, frame.lap, frame.session_time),
        laps: if frame.on_pit_road {
            crate::lap_book::pit_counted(v.laps, frame.lap)
        } else {
            v.laps
        },
        ahead: sampled_side(v.ahead, ahead, frame),
        behind: sampled_side(v.behind, behind, frame),
        fight_ahead: crate::engagement::engagement_step(
            v.fight_ahead,
            frame.session_time,
            nearest(ahead),
        ),
        fight_behind: crate::engagement::engagement_step(
            v.fight_behind,
            frame.session_time,
            nearest(behind),
        ),
        ..v
    }
}

/// The battle events of a racing frame: ahead, then behind.
pub open spec fn gap_events(v: EngineView, frame: TelemetryFrame) -> Seq<RaceEvent> {
    let ahead = nearest(rivals_of(v, frame, Side::Ahead));
    let behind = nearest(rivals_of(v, frame, Side::Behind));
    crate::engagement::engagement_events(
        v.fight_ahead,
        frame,
        ahead,
        prior_with(v.registry, frame.player_car_idx, ahead),
    ) + crate::engagement::engagement_events(
        v.fight_behind,
        frame,
        behind,
        prior_with(v.registry, frame.player_car_idx, behind),
    )
}

/// The book after the finished lap.
pub open spec fn laps_after(v: EngineView, frame: TelemetryFrame, done: u8) -> LapBookView {
    crate::lap_book::lap_closed(
        v.laps,
        frame,
        done,
        crate::lap_timer::lap_time(v.lap_times, done),
    )
}

/// What the finished lap says of a direction.
pub open spec fn verdict(
    v: EngineView,
    frame: TelemetryFrame,
    done: u8,
    side: Side,
) -> Classification {
    let pitted = laps_after(v, frame, done).pit_laps.contains(done);
    match side {
        Side::Ahead => crate::pressure::assessed(v.ahead, done, pitted),
        Side::Behind => crate::pressure::assessed(v.behind, done, pitted),
    }
}

/// What a finished lap changes.
pub open spec fn lap_step(v: EngineView, frame: TelemetryFrame, done: u8) -> EngineView {
    let laps = laps_after(v, frame, done);
    let fwd = verdict(v, frame, done, Side::Ahead);
    let def = verdict(v, frame, done, Side::Behind);
    EngineView {
        laps,
        ahead: crate::pressure::pressed(v.ahead, fwd),
        behind: crate::pressure::pressed(v.behind, def),
        registry: match fwd.threat_car {
            Some(car) => crate::car_registry::history_step(
                v.registry,
                frame.player_car_idx,
                car,
                fwd.state,
                laps.pit_laps.contains(done),
                done,
            ),
            None => v.registry,
        },
        sectors: crate::micro_sector::lap_ended(v.sectors, v.lap_clean),
        ..v
    }
}

/// The closing event of a direction, where there is one.
pub open spec fn pressure_events(
    v: EngineView,
    frame: TelemetryFrame,
    done: u8,
    side: Side,
) -> Seq<RaceEvent> {
    let c = verdict(v, frame, done, side);
    let p = match side {
        Side::Ahead => v.ahead,
        Side::Behind => v.behind,
    };
    if crate::pressure::closes_in(p, c) {
        seq![
            crate::pressure::closing_event(
                frame,
                done,
                c,
                crate::car_registry::prior_of(v.registry, frame.player_car_idx, c.threat_car->0),
            ),
        ]
    } else {
        Seq::empty()
    }
}

/// The events of a finished lap: the lap, won positions, closing cars, segments.
pub open spec fn lap_step_events(v: EngineView, frame: TelemetryFrame, done: u8) -> Seq<
    RaceEvent,
> {
    crate::lap_book::closing_events(
        v.laps,
        frame,
        done,
        crate::lap_timer::lap_time(v.lap_times, done),
    ) + pressure_events(v, frame, done, Side::Ahead) + pressure_events(
        v,
        frame,
        done,
        Side::Behind,
    ) + crate::micro_sector::lap_events(v.sectors, done, frame.session_time, v.lap_clean)
}

/// What is carried over to the next frame.
pub open spec fn carry_step(v: EngineView, frame: TelemetryFrame, new_lap: bool) -> EngineView {
    let bucket = crate::anchor_sampler::anchor_bucket(frame.lap_dist_pct, v.anchor_count);
    EngineView {
        laps: LapBookView {
            prev_lap: Some(frame.lap),
            prev_position: Some(frame.player_car_position),
            ..v.laps
        },
        lap_clean: is_clean(frame) && (new_lap || v.lap_clean),
        sectors: if v.sectors.last_anchor_bucket == Some(bucket) {
            v.sectors
        } else {
            crate::micro_sector::crossed(v.sectors, frame.session_time, bucket)
        },
        ..v
    }
}

/// What a racing frame changes.
pub open spec fn racing_step(v: EngineView, frame: TelemetryFrame) -> EngineView {
    let w = gap_step(v, frame);
    match crate::lap_book::finished(w.laps, frame.lap) {
        Some(done) => carry_step(lap_step(w, frame, done), frame, true),
        None => carry_step(w, frame, false),
    }
}

/// The events of a racing frame.
pub open spec fn racing_events(v: EngineView, frame: TelemetryFrame) -> Seq<RaceEvent> {
    let w = gap_step(v, frame);
    match crate::lap_book::finished(w.laps, frame.lap) {
        Some(done) => gap_events(v, frame) + lap_step_events(w, frame, done),
        None => gap_events(v, frame),
    }
}

/// The engine after a frame.
pub open spec fn engine_step(v: EngineView, frame: TelemetryFrame) -> EngineView {
    let w = watch_step(v, frame);
    if is_racing(frame) {
        racing_step(w, frame)
    } else {
        EngineView { laps: LapBookView { prev_lap: Some(frame.lap), ..w.laps }, ..w }
    }
}

/// The events of a frame, in the order they are reported.
pub open spec fn engine_events(v: EngineView, frame: TelemetryFrame) -> Seq<RaceEvent> {
    if is_racing(frame) {
        watch_events(v, frame) + racing_events(watch_step(v, frame), frame)
    } else {
        watch_events(v, frame)
    }
}

/// How the driver runs after a frame: the lap times, the nearest car on either side
/// within battle distance, and the segment that was completed last against the best of
/// its kind.
pub open spec fn standing_of(v: EngineView, frame: TelemetryFrame) -> Standing {
    let lap_time_s = crate::lap_timer::estimate(v.lap_times);
    let segment = crate::micro_sector::last_segment(v.sectors);
    Standing {
        last_lap_time_s: if frame.lap_last_lap_time > 0 {
            Some(frame.lap_last_lap_time)
        } else {
            None
        },
        best_lap_time_s: v.laps.best_lap_time_s,
        ahead: nearest(
            crate::gap_finder::rivals(frame, lap_time_s, Side::Ahead, SCAN_FIELD_POSITIONS, 256),
        ),
        behind: nearest(
            crate::gap_finder::rivals(frame, lap_time_s, Side::Behind, SCAN_FIELD_POSITIONS, 256),
        ),
        sector_bucket: segment.0,
        sector_delta_to_best_s: segment.1,
    }
}

/// An engine that has seen no frame.
pub open spec fn fresh_engine(anchor_count: usize) -> EngineView {
    EngineView {
        anchor_count,
        roster: Map::empty(),
        registry: crate::car_registry::empty_registry(),
        incidents: crate::basic_incident::unused_detector(),
        session: crate::session_watch::unwatched(),
        prev_on_pit: false,
        lap_times: LapTimes { starts: Map::empty(), times: Map::empty(), latest: None },
        laps: crate::lap_book::blank_book(),
        lap_clean: true,
        sectors: crate::micro_sector::unused_tracker(anchor_count),
        ahead: crate::pressure::no_pressure(anchor_count),
        behind: crate::pressure::no_pressure(anchor_count),
        fight_ahead: crate::engagement::quiet(),
        fight_behind: crate::engagement::quiet(),
    }
}

/// Pure state-machine narrative engine. A single instance owns all race state;
/// frames are taken by reference and never kept.
pub struct NarrativeEngine {
    anchor_count: usize,
    roster: SessionRoster,
    registry: CarRegistry,
    incidents: BasicIncidentDetector,
    session: SessionWatch,
    prev_on_pit: bool,
    lap_timer: LapTimer,
    laps: LapBook,
    lap_clean: bool,
    sectors: MicroSectorTracker,
    ahead: Pressure,
    behind: Pressure,
    fight_ahead: Engagement,
    fight_behind: Engagement,
}

impl View for NarrativeEngine {
    type V = EngineView;

    closed spec fn view(&self) -> EngineView {
        EngineView {
            anchor_count: self.anchor_count,
            roster: self.roster@,
            registry: self.registry@,
            incidents: self.incidents@,
            session: self.session,
            prev_on_pit: self.prev_on_pit,
            lap_times: self.lap_timer@,
            laps: self.laps@,
            lap_clean: self.lap_clean,
            sectors: self.sectors@,
            ahead: self.ahead@,
            behind: self.behind@,
            fight_ahead: self.fight_ahead,
            fight_behind: self.fight_behind,
        }
    }
}

impl NarrativeEngine {
    /// The parts are well formed, and both directions have the engine's anchors.
    pub closed spec fn wf(self) -> bool {
        &&& self.anchor_count > 0
        &&& self.registry.wf()
        &&& self.sectors.wf()
        &&& self.ahead@.sampler.n_buckets == self.anchor_count
        &&& self.behind@.sampler.n_buckets == self.anchor_count
    }

    /// Create a new engine. `anchor_count` is derived from lap 1 duration:
    /// `floor(lap1_duration_s / TARGET_CADENCE_S)`, minimum 10.
    pub fn new(anchor_count: usize) -> (r: Self)
        requires
            anchor_count > 0,
        ensures
            r.wf(),
            r@ == fresh_engine(anchor_count),
    {
        NarrativeEngine {
            anchor_count,
            roster: SessionRoster::from_cars(Vec::new()),
            registry: CarRegistry::new(),
            incidents: BasicIncidentDetector::new(),
            session: SessionWatch::new(),
            prev_on_pit: false,
            lap_timer: LapTimer::new(),
            laps: LapBook::new(),
            lap_clean: true,
            sectors: MicroSectorTracker::new(anchor_count),
            ahead: Pressure::new(anchor_count),
            behind: Pressure::new(anchor_count),
            fight_ahead: Engagement::new(),
            fight_behind: Engagement::new(),
        }
    }

    /// Names the cars from now on.
    pub fn set_roster(&mut self, roster: SessionRoster)
        requires
            old(self).wf(),
        ensures
            final(self).wf(),
            final(self)@ == (EngineView { roster: roster@, ..old(self)@ }),
    {
        self.roster = roster;
    }

    /// Forgets the session but for the names of the cars.
    pub fn restart(&mut self)
        requires
            old(self).wf(),
        ensures
            final(self).wf(),
            final(self)@ == (EngineView {
                roster: old(self)@.roster,
                ..fresh_engine(old(self)@.anchor_count)
            }),
    {
        let mut fresh: NarrativeEngine = NarrativeEngine::new(self.anchor_count);
        std::mem::swap(&mut fresh.roster, &mut self.roster);
        *self = fresh;
    }

    /// How the driver runs after a frame.
    pub fn standing(&self, frame: &TelemetryFrame) -> (r: Standing)
        requires
            self.wf(),
        ensures
            r == standing_of(self@, *frame),
    {
        let lap_time: Micro = self.lap_timer.best_estimate();
        let ahead: Vec<Numbered> = find_cars_ahead(frame, lap_time, SCAN_FIELD_POSITIONS);
        let behind: Vec<Numbered> = find_cars_behind(frame, lap_time, SCAN_FIELD_POSITIONS);
        let (sector_bucket, sector_delta_to_best_s): (Option<u8>, Option<Micro>) =
            self.sectors.latest();
        Standing {
            last_lap_time_s: if frame.lap_last_lap_time > 0 {
                Some(frame.lap_last_lap_time)
            } else {
                None
            },
            best_lap_time_s: self.laps.best(),
            ahead: first_of(&ahead),
            behind: first_of(&behind),
            sector_bucket,
            sector_delta_to_best_s,
        }
    }

    /// Process one telemetry frame and return any narrative events it triggers.
    pub fn process_frame(&mut self, frame: &TelemetryFrame) -> (r: Vec<RaceEvent>)
        requires
            old(self).wf(),
        ensures
            final(self).wf(),
            final(self)@ == engine_step(old(self)@, *frame),
            r@ == engine_events(old(self)@, *frame),
    {
        let ghost v = self@;
        let mut events: Vec<RaceEvent> = self.watch(frame);
        if frame.player_car_position == 0 || frame.lap < 1 {
            self.laps.skip(frame.lap);
            return events;
        }
        let ghost w = self@;
        self.track_gaps(frame, &mut events);
        let done: Option<u8> = self.laps.finished_lap(frame.lap);
        if let Some(done_lap) = done {
            self.close_lap(frame, done_lap, &mut events);
        }
        self.carry_over(frame, done.is_some());
        proof {
            assert(events@ =~= watch_events(v, *frame) + racing_events(w, *frame));
        }
        events
    }

    /// Takes in what every frame has.
    fn watch(&mut self, frame: &TelemetryFrame) -> (r: Vec<RaceEvent>)
        requires
            old(self).wf(),
        ensures
            final(self).wf(),
            final(self)@ == watch_step(old(self)@, *frame),
            r@ == watch_events(old(self)@, *frame),
    {
        let ghost v = self@;
        self.registry.update_from_frame(
            frame,
            &self.roster,
            frame.session_tick,
            self.anchor_count,
        );
        let mut events: Vec<RaceEvent> = self.incidents.update(
            &self.registry,
            frame.lap,
            frame.session_time,
            frame.session_tick,
            frame.player_car_idx,
            frame.player_incident_count,
        );
        self.session.observe(frame, &mut events);
        let lap: u8 = frame.lap;
        let session_time: Micro = frame.session_time;
        let player_car_idx: u8 = frame.player_car_idx;
        let position: u8 = frame.player_car_position;
        if frame.on_pit_road && !self.prev_on_pit {
            events.push(RaceEvent::PitEntry { lap, session_time, player_car_idx, position });
        } else if !frame.on_pit_road && self.prev_on_pit {
            events.push(RaceEvent::PitExit { lap, session_time, player_car_idx, position });
        }
        self.prev_on_pit = frame.on_pit_road;
        proof {
            assert(events@ =~= watch_events(v, *frame));
        }
        events
    }

    /// Finds the rivals, samples them, and follows the battles with the nearest.
    fn track_gaps(&mut self, frame: &TelemetryFrame, events: &mut Vec<RaceEvent>)
        requires
            old(self).wf(),
        ensures
            final(self).wf(),
            final(self)@ == gap_step(old(self)@, *frame),
            final(events)@ == old(events)@ + gap_events(old(self)@, *frame),
    {
        let ghost v = self@;
        let ghost before = events@;
        self.lap_timer.update(frame.lap, frame.session_time);
        let lap_time: Micro = self.lap_timer.best_estimate();
        if frame.on_pit_road {
            self.laps.count_pit_frame(frame.lap);
        }
        let clean: bool = clean_frame(frame);
        let ahead: Vec<Numbered> = find_cars_ahead(frame, lap_time, SCAN_FIELD_POSITIONS);
        let behind: Vec<Numbered> = find_cars_behind(frame, lap_time, SCAN_FIELD_POSITIONS);
        self.ahead.sample(&ahead, frame.lap, frame.lap_dist_pct, clean);
        self.behind.sample(&behind, frame.lap, frame.lap_dist_pct, clean);
        proof {
            lemma_sampling_keeps_anchors(
                v.ahead.sampler,
                ahead@,
                frame.lap,
                frame.lap_dist_pct,
                clean,
            );
            lemma_sampling_keeps_anchors(
                v.behind.sampler,
                behind@,
                frame.lap,
                frame.lap_dist_pct,
                clean,
            );
        }
        let near_ahead: Option<Numbered> = first_of(&ahead);
        let near_behind: Option<Numbered> = first_of(&behind);
        let prior_ahead: Prior = self.prior(frame.player_car_idx, near_ahead);
        let prior_behind: Prior = self.prior(frame.player_car_idx, near_behind);
        self.fight_ahead.observe(frame, near_ahead, prior_ahead, events);
        self.fight_behind.observe(frame, near_behind, prior_behind, events);
        proof {
            assert(events@ =~= before + gap_events(v, *frame));
            assert(self@ =~= gap_step(v, *frame));
        }
    }

    /// Closes the finished lap.
    fn close_lap(&mut self, frame: &TelemetryFrame, done: u8, events: &mut Vec<RaceEvent>)
        requires
            old(self).wf(),
        ensures
            final(self).wf(),
            final(self)@ == lap_step(old(self)@, *frame, done),
            final(events)@ == old(events)@ + lap_step_events(old(self)@, *frame, done),
    {
        let ghost v = self@;
        let ghost before = events@;
        let lap_time: Option<Micro> = self.lap_timer.completed(done);
        self.laps.close_lap(frame, done, lap_time, events);
        let pitted: bool = self.laps.is_pit_lap(done);
        let player: u8 = frame.player_car_idx;
        let (fwd, fwd_news): (Classification, bool) = self.ahead.assess(done, pitted);
        let (def, def_news): (Classification, bool) = self.behind.assess(done, pitted);
        if fwd_news {
            if let Some(car) = fwd.threat_car {
                let prior: (u32, Micro) = self.registry.prior_with(player, car);
                if let Some(event) = make_closing_event(frame, done, &fwd, prior) {
                    events.push(event);
                }
            }
        }
        if def_news {
            if let Some(car) = def.threat_car {
                let prior: (u32, Micro) = self.registry.prior_with(player, car);
                if let Some(event) = make_closing_event(frame, done, &def, prior) {
                    events.push(event);
                }
            }
        }
        if let Some(car) = fwd.threat_car {
            self.registry.update_opponent_history(player, car, &fwd.state, pitted, done);
        }
        let mut segments: Vec<RaceEvent> = self.sectors.on_lap_end(
            done,
            frame.session_time,
            self.lap_clean,
        );
        events.append(&mut segments);
        proof {
            assert(events@ =~= before + lap_step_events(v, *frame, done));
            assert(self@ =~= lap_step(v, *frame, done));
        }
    }

    /// Keeps what the next frame needs.
    fn carry_over(&mut self, frame: &TelemetryFrame, new_lap: bool)
        requires
            old(self).wf(),
        ensures
            final(self).wf(),
            final(self)@ == carry_step(old(self)@, *frame, new_lap),
    {
        let clean: bool = clean_frame(frame);
        self.laps.carry(frame.lap, frame.player_car_position);
        self.lap_clean = clean && (new_lap || self.lap_clean);
        let bucket: u8 = bucket_at(frame.lap_dist_pct, self.anchor_count);
        let here: bool = match self.sectors.last_anchor_bucket {
            Some(b) => b == bucket,
            None => false,
        };
        if !here {
            self.sectors.on_anchor_crossing(frame.session_time, bucket);
        }
    }

    /// The player's history with the nearest car.
    fn prior(&self, player: u8, near: Option<Numbered>) -> (r: Prior)
        requires
            self.wf(),
        ensures
            r == prior_with(self@.registry, player, near),
    {
        match near {
            Some((car, _)) => {
                let p: (u32, Micro) = self.registry.prior_with(player, car);
                Prior { skirmishes: p.0, attack_time_s: p.1 }
            },
            None => Prior { skirmishes: 0, attack_time_s: 0 },
        }
    }
}

/// The nearest of the rivals.
fn first_of(rivals: &Vec<Numbered>) -> (r: Option<Numbered>)
    ensures
        r == nearest(rivals@),
{
    if rivals.len() > 0 {
        Some(rivals[0])
    } else {
        None
    }
}

/// Whether a frame is fit for regression.
pub fn clean_frame(frame: &TelemetryFrame) -> (r: bool)
    ensures
        r == is_clean(*frame),
{
    let zone: bool = (frame.lap == 1 && 625_000 <= frame.lap_dist_pct && frame.lap_dist_pct
        <= 646_000) || (frame.lap == 2 && 616_000 <= frame.lap_dist_pct && frame.lap_dist_pct
        <= 623_000);
    frame.session_flags & (YELLOW_WAVE | CAUTION) == 0 && !zone && !frame.on_pit_road
}

/// Readings do not change the number of anchors.
proof fn lemma_sampling_keeps_anchors(
    s: crate::anchor_sampler::SamplerView,
    rivals: Seq<Numbered>,
    lap: u8,
    lap_dist_pct: Micro,
    is_clean: bool,
)
    ensures
        crate::pressure::sampled_all(s, rivals, lap, lap_dist_pct, is_clean).n_buckets
            == s.n_buckets,
    decreases rivals.len(),
{
    if rivals.len() > 0 {
        lemma_sampling_keeps_anchors(s, rivals.drop_last(), lap, lap_dist_pct, is_clean);
    }
}

/// How the driver runs: the last lap time where there is one, the best one, the nearest
/// car within five positions ahead and behind at the pace of the laps, and the last
/// segment.
pub proof fn the_standing_names_the_nearest_cars(v: EngineView, frame: TelemetryFrame)
    ensures
        ({
            let s = standing_of(v, frame);
            let pace = crate::lap_timer::estimate(v.lap_times);
            let ahead = crate::gap_finder::rivals(frame, pace, Side::Ahead, 5, 256);
            let behind = crate::gap_finder::rivals(frame, pace, Side::Behind, 5, 256);
            &&& s.last_lap_time_s is Some <==> frame.lap_last_lap_time > 0
            &&& s.last_lap_time_s is Some ==> s.last_lap_time_s->0 == frame.lap_last_lap_time
            &&& s.best_lap_time_s == v.laps.best_lap_time_s
            &&& ahead.len() > 0 ==> s.ahead == Some(ahead[0])
            &&& ahead.len() == 0 ==> s.ahead is None
            &&& behind.len() > 0 ==> s.behind == Some(behind[0])
            &&& behind.len() == 0 ==> s.behind is None
            &&& s.sector_bucket == crate::micro_sector::last_segment(v.sectors).0
            &&& s.sector_delta_to_best_s == crate::micro_sector::last_segment(v.sectors).1
        }),
{
}

} // verus!
