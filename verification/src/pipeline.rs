//! The publisher's frame loop: what each frame, disconnection and shutdown has
//! the publisher say.

use vstd::prelude::*;

use crate::engine::{engine_events, engine_step, fresh_engine, EngineView, NarrativeEngine};
use crate::fixed::{minus, Micro};
use crate::lifecycle::{HeartbeatScheduler, LifecyclePublisher, LifecycleView, SchedulerView};
use crate::material::{MaterialReport, Standing};
use crate::publisher_event::{
    build_event, roster_view, run_after, stamp_of, PublisherEvent, PublisherRun, RunView,
};
use crate::race_event::RaceEvent;
use crate::session_info::{
    parse_sub_session_id, CarRefView, RosterCache, RosterCacheView, SessionInfoParser,
    SessionRoster,
};
use crate::telemetry_frame::TelemetryFrame;
use crate::text::integer_text;

verus! {

/// Anchors of the publisher's engine.
pub const PUBLISHER_ANCHORS: usize = 10;

/// A session clock that falls back by more than this has been restarted.
pub const CLOCK_RESTART_S: i64 = 5_000_000;

/// What is kept of the last frame.
#[derive(Debug, Clone, Copy, PartialEq, Eq, Structural)]
pub struct LastFrame {
    pub lap: u8,
    pub session_time: Micro,
    pub session_num: i32,
}

/// What a [`Pipeline`] holds.
#[verifier::ext_equal]
pub struct PipelineView {
    pub engine: EngineView,
    pub lifecycle: LifecycleView,
    pub cache: RosterCacheView,
    pub heartbeat: SchedulerView,
    pub material: MaterialReport,
    /// Zero until it is known.
    pub sub_session_id: i64,
    /// The connection has been announced.
    pub announced: bool,
    pub enqueued_total: u64,
    pub last: Option<LastFrame>,
    pub run: RunView,
}

/// Whether the session clock stands before that of the last frame.
pub open spec fn clock_runs_back(v: PipelineView, frame: TelemetryFrame) -> bool {
    v.last matches Some(l) && frame.session_time < l.session_time
}

/// Whether the description of the session is to be read with this frame: it has
/// changed, or the clock runs back, so that the session may be another one.
pub open spec fn wants_info(v: PipelineView, frame: TelemetryFrame) -> bool {
    v.cache.last_tick != Some(frame.session_info_update) || clock_runs_back(v, frame)
}

/// What the description of the session changes: who is on the roster, and which
/// sub-session it is.
pub open spec fn informed(
    v: PipelineView,
    frame: TelemetryFrame,
    info: Option<Seq<char>>,
) -> PipelineView {
    match info {
        Some(text) => if wants_info(v, frame) {
            let drivers = crate::session_info::drivers_in(text);
            PipelineView {
                sub_session_id: match crate::session_info::sub_session_in(text) {
                    Some(id) => id,
                    None => v.sub_session_id,
                },
                cache: match drivers {
                    Some(d) => RosterCacheView {
                        last_tick: Some(frame.session_info_update),
                        roster: Some(crate::session_info::roster_of(d)),
                    },
                    None => v.cache,
                },
                engine: match drivers {
                    Some(d) => EngineView {
                        roster: crate::session_info::roster_of(d),
                        ..v.engine
                    },
                    None => v.engine,
                },
                ..v
            }
        } else {
            v
        },
        None => v,
    }
}

/// Whether the sub-session is another one than before.
pub open spec fn session_changed(v: PipelineView, w: PipelineView) -> bool {
    v.sub_session_id > 0 && w.sub_session_id != v.sub_session_id
}

/// Whether the session clock was restarted within one session.
pub open spec fn clock_restarted(v: PipelineView, frame: TelemetryFrame) -> bool {
    v.last matches Some(l) && l.session_num == frame.session_num && l.session_time
        - frame.session_time > CLOCK_RESTART_S
}

/// The event of a session that begins anew.
pub open spec fn reset_event(v: PipelineView, w: PipelineView, frame: TelemetryFrame) -> RaceEvent {
    RaceEvent::SessionReset {
        lap: frame.lap,
        session_time: frame.session_time,
        previous_sub_session_id: if v.sub_session_id > 0 {
            Some(v.sub_session_id)
        } else {
            None
        },
        sub_session_id: w.sub_session_id,
        previous_session_num: match v.last {
            Some(l) => Some(l.session_num),
            None => None,
        },
        session_num: frame.session_num,
        previous_session_time: if session_changed(v, w) {
            None
        } else {
            match v.last {
                Some(l) => Some(l.session_time),
                None => None,
            }
        },
        reason: if session_changed(v, w) {
            "sub_session_changed"
        } else {
            "session_clock_restarted"
        },
    }
}

/// The engine that a frame is given to: a fresh one where the session begins
/// anew.
pub open spec fn engine_in(v: PipelineView, w: PipelineView, frame: TelemetryFrame) -> EngineView {
    if session_changed(v, w) || clock_restarted(v, frame) {
        EngineView { roster: w.engine.roster, ..fresh_engine(w.engine.anchor_count) }
    } else {
        w.engine
    }
}

/// What is said before the engine's own events: goodbye to the sub-session that is
/// left, a reset, the connection, hello.
pub open spec fn opening_events(
    v: PipelineView,
    w: PipelineView,
    frame: TelemetryFrame,
) -> Seq<RaceEvent> {
    let lap = frame.lap;
    let session_time = frame.session_time;
    let left = crate::session_watch::push_if(
        Seq::empty(),
        session_changed(v, w),
        crate::lifecycle::farewell(lap, session_time, v.sub_session_id),
    );
    let a = crate::session_watch::push_if(
        left,
        session_changed(v, w) || clock_restarted(v, frame),
        reset_event(v, w, frame),
    );
    let b = crate::session_watch::push_if(
        a,
        !w.announced,
        RaceEvent::IracingConnected { lap, session_time },
    );
    crate::session_watch::push_if(
        b,
        w.lifecycle.fresh,
        crate::lifecycle::hello(w.lifecycle, lap, session_time),
    )
}

/// A counter after `n` more, held at the end of its range.
pub open spec fn counted(total: u64, n: nat) -> u64 {
    if total + n > u64::MAX {
        u64::MAX
    } else {
        (total + n) as u64
    }
}

/// The reports on the driver as a frame finds them: anew where the sub-session is
/// another one.
pub open spec fn material_in(v: PipelineView, w: PipelineView) -> MaterialReport {
    if session_changed(v, w) {
        crate::material::begun(w.material.interval_ms)
    } else {
        w.material
    }
}

/// Whether the roster knows the rig's driver by name.
pub open spec fn driver_named(w: PipelineView, frame: TelemetryFrame) -> bool {
    known_cars(w).contains_key(frame.player_car_idx) && known_cars(
        w,
    )[frame.player_car_idx].driver_name.len() > 0
}

/// How the driver runs with a frame.
pub open spec fn standing_in(
    v: PipelineView,
    w: PipelineView,
    frame: TelemetryFrame,
) -> Standing {
    crate::engine::standing_of(engine_step(engine_in(v, w, frame), frame), frame)
}

/// What is said but for a heartbeat: the opening, the engine's own events, and the
/// report on the driver where one is due.
pub open spec fn spoken(
    v: PipelineView,
    frame: TelemetryFrame,
    info: Option<Seq<char>>,
    now_ms: u64,
) -> Seq<RaceEvent> {
    let w = informed(v, frame, info);
    crate::session_watch::push_if(
        opening_events(v, w, frame) + engine_events(engine_in(v, w, frame), frame),
        crate::material::reports(material_in(v, w), frame, driver_named(w, frame), now_ms),
        crate::material::report(material_in(v, w), frame, standing_in(v, w, frame), now_ms),
    )
}

/// The events that a frame has the publisher send. As long as the sub-session is
/// not known nothing is sent.
pub open spec fn frame_events(
    v: PipelineView,
    frame: TelemetryFrame,
    info: Option<Seq<char>>,
    now_ms: u64,
) -> Seq<RaceEvent> {
    let w = informed(v, frame, info);
    let events = spoken(v, frame, info, now_ms);
    if w.sub_session_id > 0 {
        crate::session_watch::push_if(
            events,
            crate::lifecycle::fires(v.heartbeat, now_ms),
            crate::lifecycle::beat(
                v.lifecycle,
                frame.lap,
                frame.session_time,
                counted(v.enqueued_total, events.len()),
            ),
        )
    } else {
        Seq::empty()
    }
}

/// The pipeline after a frame.
pub open spec fn frame_step(
    v: PipelineView,
    frame: TelemetryFrame,
    info: Option<Seq<char>>,
    now_ms: u64,
) -> PipelineView {
    let w = informed(v, frame, info);
    let known = w.sub_session_id > 0;
    PipelineView {
        engine: engine_step(engine_in(v, w, frame), frame),
        lifecycle: if known {
            LifecycleView { fresh: false, ..w.lifecycle }
        } else {
            w.lifecycle
        },
        heartbeat: if known {
            crate::lifecycle::asked(w.heartbeat, now_ms)
        } else {
            w.heartbeat
        },
        material: if known {
            crate::material::reported(
                material_in(v, w),
                frame,
                standing_in(v, w, frame),
                driver_named(w, frame),
                now_ms,
            )
        } else {
            material_in(v, w)
        },
        announced: w.announced || known,
        enqueued_total: counted(
            w.enqueued_total,
            frame_events(v, frame, info, now_ms).len(),
        ),
        last: Some(
            LastFrame {
                lap: frame.lap,
                session_time: frame.session_time,
                session_num: frame.session_num,
            },
        ),
        ..w
    }
}

/// A pipeline as it was but for its sub-session.
spec fn coming_from(w: PipelineView, before: i64) -> PipelineView {
    PipelineView { sub_session_id: before, ..w }
}

/// The pipeline once a frame was opened.
spec fn opened(v: PipelineView, w: PipelineView, frame: TelemetryFrame) -> PipelineView {
    let known = w.sub_session_id > 0;
    PipelineView {
        engine: engine_in(v, w, frame),
        material: material_in(v, w),
        lifecycle: if known {
            LifecycleView { fresh: false, ..w.lifecycle }
        } else {
            w.lifecycle
        },
        announced: w.announced || known,
        ..w
    }
}

/// What is said with a frame, `events` being what was said before its close.
spec fn closing(
    v: PipelineView,
    frame: TelemetryFrame,
    now_ms: u64,
    events: Seq<RaceEvent>,
) -> Seq<RaceEvent> {
    let a = crate::session_watch::push_if(
        events,
        crate::material::reports(v.material, frame, driver_named(v, frame), now_ms),
        crate::material::report(
            v.material,
            frame,
            crate::engine::standing_of(v.engine, frame),
            now_ms,
        ),
    );
    crate::session_watch::push_if(
        a,
        crate::lifecycle::fires(v.heartbeat, now_ms),
        crate::lifecycle::beat(
            v.lifecycle,
            frame.lap,
            frame.session_time,
            counted(v.enqueued_total, a.len()),
        ),
    )
}

/// Of what came before, opening a frame asks for the sub-session and the last frame
/// alone.
proof fn lemma_opened(v: PipelineView, w: PipelineView, frame: TelemetryFrame, before: i64)
    requires
        v.last == w.last,
        v.sub_session_id == before,
    ensures
        opening_events(coming_from(w, before), w, frame) == opening_events(v, w, frame),
        opened(coming_from(w, before), w, frame) == opened(v, w, frame),
        engine_in(coming_from(w, before), w, frame) == engine_in(v, w, frame),
{
}

/// The publisher's state between frames.
pub struct Pipeline {
    engine: NarrativeEngine,
    lifecycle: LifecyclePublisher,
    cache: RosterCache,
    heartbeat: HeartbeatScheduler,
    material: MaterialReport,
    sub_session_id: i64,
    announced: bool,
    enqueued_total: u64,
    last: Option<LastFrame>,
    run: PublisherRun,
}

impl View for Pipeline {
    type V = PipelineView;

    closed spec fn view(&self) -> PipelineView {
        PipelineView {
            engine: self.engine@,
            lifecycle: self.lifecycle@,
            cache: self.cache@,
            heartbeat: self.heartbeat@,
            material: self.material,
            sub_session_id: self.sub_session_id,
            announced: self.announced,
            enqueued_total: self.enqueued_total,
            last: self.last,
            run: self.run@,
        }
    }
}

impl Pipeline {
    /// The engine is well formed.
    pub closed spec fn wf(self) -> bool {
        self.engine.wf()
    }

    /// A publisher that has seen no frame.
    pub fn new(version: &str, heartbeat_interval_ms: u64, driver_material_interval_ms: u64) -> (r:
        Self)
        ensures
            r.wf(),
            r@.engine == fresh_engine(PUBLISHER_ANCHORS),
            r@.lifecycle.version@ == version@ && r@.lifecycle.fresh,
            r@.cache == (RosterCacheView { last_tick: None, roster: None }),
            r@.heartbeat == (SchedulerView {
                interval_ms: if heartbeat_interval_ms > 0 {
                    Some(heartbeat_interval_ms)
                } else {
                    None
                },
                last_ms: None,
            }),
            r@.material == crate::material::begun(
                crate::material::cadence(driver_material_interval_ms),
            ),
            r@.sub_session_id == 0,
            !r@.announced,
            r@.enqueued_total == 0,
            r@.last is None,
            crate::publisher_event::is_uuid_v4(r@.run.run_id),
            r@.run.next_sequence == 1,
    {
        Pipeline {
            engine: NarrativeEngine::new(PUBLISHER_ANCHORS),
            lifecycle: LifecyclePublisher::new(version),
            cache: RosterCache::new(),
            heartbeat: HeartbeatScheduler::new(heartbeat_interval_ms),
            material: MaterialReport::new(driver_material_interval_ms),
            sub_session_id: 0,
            announced: false,
            enqueued_total: 0,
            last: None,
            run: PublisherRun::new(),
        }
    }

    /// Whether the description of the session should be read for this frame.
    pub fn needs_session_info(&self, frame: &TelemetryFrame) -> (r: bool)
        ensures
            r == wants_info(self@, *frame),
    {
        let runs_back: bool = match self.last {
            Some(l) => frame.session_time < l.session_time,
            None => false,
        };
        runs_back || self.cache.needs_update(frame.session_info_update)
    }

    /// The current roster.
    pub fn roster(&self) -> (r: Option<&SessionRoster>)
        ensures
            r is Some <==> self@.cache.roster is Some,
            r matches Some(x) ==> self@.cache.roster == Some(x@),
    {
        self.cache.roster()
    }

    /// The sub-session, zero until it is known.
    pub fn sub_session_id(&self) -> (r: i64)
        ensures
            r == self@.sub_session_id,
    {
        self.sub_session_id
    }

    /// The sub-session as events carry it, `0` until it is known.
    pub fn race_session_id(&self) -> (r: String)
        ensures
            r@ == crate::text::integer(self@.sub_session_id as int),
    {
        integer_text(self.sub_session_id)
    }

    /// How many events there have been.
    pub fn enqueued_total(&self) -> (r: u64)
        ensures
            r == self@.enqueued_total,
    {
        self.enqueued_total
    }

    /// The last frame.
    pub fn last_frame(&self) -> (r: Option<LastFrame>)
        ensures
            r == self@.last,
    {
        self.last
    }

    /// Takes in what is known of the session.
    fn take_info(&mut self, frame: &TelemetryFrame, info: Option<&str>)
        requires
            old(self).wf(),
        ensures
            final(self).wf(),
            final(self)@ == informed(
                old(self)@,
                *frame,
                match info {
                    Some(t) => Some(t@),
                    None => None,
                },
            ),
    {
        if let Some(text) = info {
            if self.needs_session_info(frame) {
                if let Some(id) = parse_sub_session_id(text) {
                    self.sub_session_id = id;
                }
                if self.cache.update(frame.session_info_update, text).is_ok() {
                    if let Ok(roster) = SessionInfoParser::build(text) {
                        self.engine.set_roster(roster);
                    }
                }
            }
        }
    }

    /// Whether the roster knows the driver of a car by name.
    fn knows_driver(&self, car_idx: u8) -> (r: bool)
        ensures
            r == (known_cars(self@).contains_key(car_idx) && known_cars(
                self@,
            )[car_idx].driver_name.len() > 0),
    {
        match self.cache.roster() {
            Some(roster) => match roster.lookup(car_idx) {
                Some(car) => car.driver_name.as_str().unicode_len() > 0,
                None => false,
            },
            None => false,
        }
    }

    /// Takes in one frame, with the description of the session where it was read,
    /// and gives the events to be sent.
    pub fn on_frame(&mut self, frame: &TelemetryFrame, info: Option<&str>, now_ms: u64) -> (r: Vec<
        RaceEvent,
    >)
        requires
            old(self).wf(),
        ensures
            final(self).wf(),
            final(self)@ == frame_step(
                old(self)@,
                *frame,
                match info {
                    Some(t) => Some(t@),
                    None => None,
                },
                now_ms,
            ),
            r@ == frame_events(
                old(self)@,
                *frame,
                match info {
                    Some(t) => Some(t@),
                    None => None,
                },
                now_ms,
            ),
    {
        let ghost v = self@;
        let ghost text: Option<Seq<char>> = match info {
            Some(t) => Some(t@),
            None => None,
        };
        let before: i64 = self.sub_session_id;
        self.take_info(frame, info);
        let ghost w = self@;
        let mut events: Vec<RaceEvent> = self.open(frame, before);
        let mut own: Vec<RaceEvent> = self.engine.process_frame(frame);
        events.append(&mut own);
        let known: bool = self.sub_session_id > 0;
        self.last = Some(
            LastFrame {
                lap: frame.lap,
                session_time: frame.session_time,
                session_num: frame.session_num,
            },
        );
        proof {
            lemma_opened(v, w, *frame, before);
        }
        if !known {
            proof {
                assert(self@ =~= frame_step(v, *frame, text, now_ms));
            }
            return Vec::new();
        }
        assert(events@ =~= opening_events(v, w, *frame) + engine_events(
            engine_in(v, w, *frame),
            *frame,
        ));
        self.close(frame, now_ms, &mut events);
        proof {
            assert(events@ =~= frame_events(v, *frame, text, now_ms));
            assert(self@ =~= frame_step(v, *frame, text, now_ms));
        }
        events
    }

    /// Opens a frame behind the sub-session `before`: says goodbye to it where it is
    /// left, tells of a reset, the connection and hello, and starts anew what belongs to
    /// the session that is over.
    fn open(&mut self, frame: &TelemetryFrame, before: i64) -> (r: Vec<RaceEvent>)
        requires
            old(self).wf(),
        ensures
            final(self).wf(),
            old(self)@.sub_session_id > 0 ==> r@ == opening_events(
                coming_from(old(self)@, before),
                old(self)@,
                *frame,
            ),
            final(self)@ == opened(coming_from(old(self)@, before), old(self)@, *frame),
    {
        let ghost w = self@;
        let ghost v = coming_from(w, before);
        let lap: u8 = frame.lap;
        let session_time: Micro = frame.session_time;
        let changed: bool = before > 0 && self.sub_session_id != before;
        let restarted: bool = match self.last {
            Some(l) => l.session_num == frame.session_num && minus(l.session_time, session_time)
                > CLOCK_RESTART_S,
            None => false,
        };
        let mut events: Vec<RaceEvent> = Vec::new();
        if changed {
            self.material.restart();
            events.push(self.lifecycle.on_transition(lap, session_time, before));
        }
        if changed || restarted {
            self.engine.restart();
            events.push(
                RaceEvent::SessionReset {
                    lap,
                    session_time,
                    previous_sub_session_id: if before > 0 {
                        Some(before)
                    } else {
                        None
                    },
                    sub_session_id: self.sub_session_id,
                    previous_session_num: match self.last {
                        Some(l) => Some(l.session_num),
                        None => None,
                    },
                    session_num: frame.session_num,
                    previous_session_time: if changed {
                        None
                    } else {
                        match self.last {
                            Some(l) => Some(l.session_time),
                            None => None,
                        }
                    },
                    reason: if changed {
                        "sub_session_changed"
                    } else {
                        "session_clock_restarted"
                    },
                },
            );
        }
        if !self.announced {
            events.push(RaceEvent::IracingConnected { lap, session_time });
        }
        if self.sub_session_id > 0 {
            if self.lifecycle.is_fresh() {
                let hello: RaceEvent = self.lifecycle.on_activate(lap, session_time);
                events.push(hello);
            }
            self.announced = true;
        }
        proof {
            if w.sub_session_id > 0 {
                assert(events@ =~= opening_events(v, w, *frame));
            }
            assert(self@ =~= opened(v, w, *frame));
        }
        events
    }

    /// Closes a frame: the report on the driver and the heartbeat, where they are due.
    fn close(&mut self, frame: &TelemetryFrame, now_ms: u64, events: &mut Vec<RaceEvent>)
        requires
            old(self).wf(),
        ensures
            final(self).wf(),
            final(events)@ == closing(old(self)@, *frame, now_ms, old(events)@),
            final(self)@ == (PipelineView {
                material: crate::material::reported(
                    old(self)@.material,
                    *frame,
                    crate::engine::standing_of(old(self)@.engine, *frame),
                    driver_named(old(self)@, *frame),
                    now_ms,
                ),
                heartbeat: crate::lifecycle::asked(old(self)@.heartbeat, now_ms),
                enqueued_total: counted(old(self)@.enqueued_total, final(events)@.len()),
                ..old(self)@
            }),
    {
        let named: bool = self.knows_driver(frame.player_car_idx);
        let standing: Standing = self.engine.standing(frame);
        if let Some(report) = self.material.observe(frame, &standing, named, now_ms) {
            events.push(report);
        }
        if self.heartbeat.due(now_ms) {
            let so_far: u64 = self.enqueued_total.saturating_add(events.len() as u64);
            events.push(self.lifecycle.heartbeat(frame.lap, frame.session_time, so_far));
        }
        self.enqueued_total = self.enqueued_total.saturating_add(events.len() as u64);
    }

    /// Takes note that the simulator is gone: the event that says so, where a frame
    /// had come and the sub-session was known. Who drives is still known, so that the
    /// event can name them.
    pub fn on_disconnect(&mut self) -> (r: Option<RaceEvent>)
        requires
            old(self).wf(),
        ensures
            final(self).wf(),
            r == (match old(self)@.last {
                Some(l) => if old(self)@.sub_session_id > 0 {
                    Some(
                        RaceEvent::IracingDisconnected {
                            lap: l.lap,
                            session_time: l.session_time,
                        },
                    )
                } else {
                    None
                },
                None => None,
            }),
            final(self)@ == (PipelineView {
                enqueued_total: if r is Some {
                    counted(old(self)@.enqueued_total, 1)
                } else {
                    old(self)@.enqueued_total
                },
                ..old(self)@
            }),
    {
        match self.last {
            Some(l) => if self.sub_session_id > 0 {
                self.enqueued_total = self.enqueued_total.saturating_add(1);
                Some(RaceEvent::IracingDisconnected { lap: l.lap, session_time: l.session_time })
            } else {
                None
            },
            None => None,
        }
    }

    /// Takes note that the simulator is there again: its session is another one, of
    /// which nothing is known, and the connection is to be announced.
    pub fn on_reconnect(&mut self)
        requires
            old(self).wf(),
        ensures
            final(self).wf(),
            final(self)@ == (PipelineView {
                engine: fresh_engine(PUBLISHER_ANCHORS),
                cache: RosterCacheView { last_tick: None, roster: None },
                announced: false,
                ..old(self)@
            }),
    {
        self.engine = NarrativeEngine::new(PUBLISHER_ANCHORS);
        self.cache = RosterCache::new();
        self.announced = false;
    }

    /// The goodbye of a clean shutdown, where a frame had come.
    pub fn on_shutdown(&self) -> (r: Option<RaceEvent>)
        ensures
            r == (match self@.last {
                Some(l) => Some(crate::lifecycle::goodbye(l.lap, l.session_time)),
                None => None,
            }),
    {
        match self.last {
            Some(l) => Some(self.lifecycle.on_deactivate(l.lap, l.session_time)),
            None => None,
        }
    }
}

/// Whether an envelope is that of an event and carries the next number of a run,
/// whatever its id and time.
pub open spec fn wraps(
    pe: PublisherEvent,
    event: RaceEvent,
    frame: TelemetryFrame,
    roster: Map<u8, CarRefView>,
    rig_id: Seq<char>,
    sub_session_id: i64,
    run: RunView,
) -> bool {
    &&& crate::publisher_event::is_uuid_v4(pe.id@)
    &&& pe@ == crate::publisher_event::enveloped(
        event,
        frame,
        roster,
        crate::text::integer(sub_session_id as int),
        rig_id,
        stamp_of(run, sub_session_id, pe.id@, pe.timestamp),
    )
}

/// The envelopes of a frame's events, in their order. The sub-session stands on
/// each as its race session.
pub fn build_events(
    events: &Vec<RaceEvent>,
    frame: &TelemetryFrame,
    roster: Option<&SessionRoster>,
    rig_id: &str,
    sub_session_id: i64,
    run: &mut PublisherRun,
) -> (r: Vec<PublisherEvent>)
    ensures
        r@.len() == events@.len(),
        forall|i: int|
            0 <= i < r@.len() ==> wraps(
                #[trigger] r@[i],
                events@[i],
                *frame,
                roster_view(roster),
                rig_id@,
                sub_session_id,
                run_after(old(run)@, i as nat),
            ),
        final(run)@ == run_after(old(run)@, events@.len()),
{
    let race_session_id: String = integer_text(sub_session_id);
    let mut out: Vec<PublisherEvent> = Vec::new();
    let mut i: usize = 0;
    let ghost start = run@;
    while i < events.len()
        invariant
            race_session_id@ == crate::text::integer(sub_session_id as int),
            i <= events@.len(),
            out@.len() == i,
            run@ == run_after(start, i as nat),
            forall|k: int|
                0 <= k < i ==> wraps(
                    #[trigger] out@[k],
                    events@[k],
                    *frame,
                    roster_view(roster),
                    rig_id@,
                    sub_session_id,
                    run_after(start, k as nat),
                ),
        decreases events.len() - i,
    {
        out.push(
            build_event(
                &events[i],
                frame,
                roster,
                race_session_id.as_str(),
                rig_id,
                sub_session_id,
                run,
            ),
        );
        i = i + 1;
    }
    out
}

impl Pipeline {
    /// The envelopes of some events, in their order, under the sub-session, the
    /// roster and the run of this publisher.
    pub fn envelopes(&mut self, events: &Vec<RaceEvent>, frame: &TelemetryFrame, rig_id: &str) -> (r:
        Vec<PublisherEvent>)
        requires
            old(self).wf(),
        ensures
            final(self).wf(),
            r@.len() == events@.len(),
            forall|i: int|
                0 <= i < r@.len() ==> wraps(
                    #[trigger] r@[i],
                    events@[i],
                    *frame,
                    known_cars(old(self)@),
                    rig_id@,
                    old(self)@.sub_session_id,
                    run_after(old(self)@.run, i as nat),
                ),
            final(self)@ == (PipelineView {
                run: run_after(old(self)@.run, events@.len()),
                ..old(self)@
            }),
    {
        build_events(
            events,
            frame,
            self.cache.roster(),
            rig_id,
            self.sub_session_id,
            &mut self.run,
        )
    }
}

/// The cars that the publisher knows.
pub open spec fn known_cars(v: PipelineView) -> Map<u8, CarRefView> {
    match v.cache.roster {
        Some(cars) => cars,
        None => Map::empty(),
    }
}

/// The numbers of one batch are all greater than those of every batch before it:
/// here batches of `before`, `n` and `between` envelopes and then one that holds at
/// least `k + 1`.
pub proof fn a_later_batch_has_greater_numbers(
    run: RunView,
    before: nat,
    n: nat,
    between: nat,
    i: nat,
    k: nat,
)
    requires
        i < n,
        run.next_sequence + before + n + between + k <= u64::MAX,
    ensures
        run_after(run_after(run, before), i).next_sequence < run_after(
            run_after(run_after(run_after(run, before), n), between),
            k,
        ).next_sequence,
{
}

/// Frames leave the run as it is.
pub proof fn frames_use_up_no_number(
    v: PipelineView,
    frame: TelemetryFrame,
    info: Option<Seq<char>>,
    now_ms: u64,
)
    ensures
        frame_step(v, frame, info, now_ms).run == v.run,
{
}

/// As long as the sub-session is not known, nothing is sent.
pub proof fn nothing_is_sent_before_the_session_is_known(
    v: PipelineView,
    frame: TelemetryFrame,
    info: Option<Seq<char>>,
    now_ms: u64,
)
    requires
        informed(v, frame, info).sub_session_id <= 0,
    ensures
        frame_events(v, frame, info, now_ms).len() == 0,
        frame_step(v, frame, info, now_ms).lifecycle == v.lifecycle,
{
}

/// A clock that was restarted has the description of the session read at once: the
/// reset is told under the sub-session that it names.
pub proof fn a_restarted_clock_has_the_session_read(
    v: PipelineView,
    frame: TelemetryFrame,
    info: Seq<char>,
)
    requires
        clock_restarted(v, frame),
        crate::session_info::sub_session_in(info) is Some,
    ensures
        wants_info(v, frame),
        Some(informed(v, frame, Some(info)).sub_session_id)
            == crate::session_info::sub_session_in(info),
        reset_event(v, informed(v, frame, Some(info)), frame)->SessionReset_sub_session_id
            == informed(v, frame, Some(info)).sub_session_id,
{
}

/// A change of sub-session is told before anything else: goodbye to the one that is
/// left, which is named in the event, and then the reset.
pub proof fn a_sub_session_is_left_with_goodbye_and_reset(
    v: PipelineView,
    frame: TelemetryFrame,
    info: Option<Seq<char>>,
    now_ms: u64,
)
    requires
        session_changed(v, informed(v, frame, info)),
        informed(v, frame, info).sub_session_id > 0,
    ensures
        frame_events(v, frame, info, now_ms).len() >= 2,
        frame_events(v, frame, info, now_ms)[0] == crate::lifecycle::farewell(
            frame.lap,
            frame.session_time,
            v.sub_session_id,
        ),
        frame_events(v, frame, info, now_ms)[1] == reset_event(
            v,
            informed(v, frame, info),
            frame,
        ),
{
}

/// Within one sub-session no goodbye is told: what is said before the engine's own
/// events is a reset, the connection or hello.
pub proof fn no_goodbye_within_a_sub_session(
    v: PipelineView,
    w: PipelineView,
    frame: TelemetryFrame,
    i: int,
)
    requires
        !session_changed(v, w),
        0 <= i < opening_events(v, w, frame).len(),
    ensures
        !(opening_events(v, w, frame)[i] is PublisherGoodbye),
{
}

/// A quiet stint still has its reports: once an interval has passed since the last one,
/// the next frame of a driver who is known and in play is reported.
pub proof fn a_quiet_stint_is_reported(
    v: PipelineView,
    frame: TelemetryFrame,
    info: Option<Seq<char>>,
    now_ms: u64,
)
    requires
        informed(v, frame, info).sub_session_id > 0,
        !session_changed(v, informed(v, frame, info)),
        driver_named(informed(v, frame, info), frame),
        crate::material::in_play(frame),
        crate::material::is_due(v.material, now_ms),
    ensures
        frame_events(v, frame, info, now_ms).contains(
            crate::material::report(
                v.material,
                frame,
                standing_in(v, informed(v, frame, info), frame),
                now_ms,
            ),
        ),
        frame_step(v, frame, info, now_ms).material.last_ms == Some(now_ms),
{
    let w = informed(v, frame, info);
    let n = (opening_events(v, w, frame) + engine_events(engine_in(v, w, frame), frame)).len();
    assert(frame_events(v, frame, info, now_ms)[n as int] == crate::material::report(
        v.material,
        frame,
        standing_in(v, w, frame),
        now_ms,
    ));
}

/// A new session starts from nothing: no battle, lap or reading of the one before
/// it reaches the engine.
pub proof fn a_new_session_starts_from_nothing(
    v: PipelineView,
    frame: TelemetryFrame,
    info: Option<Seq<char>>,
    now_ms: u64,
)
    requires
        session_changed(v, informed(v, frame, info)),
    ensures
        frame_step(v, frame, info, now_ms).engine == engine_step(
            EngineView {
                roster: informed(v, frame, info).engine.roster,
                ..fresh_engine(v.engine.anchor_count)
            },
            frame,
        ),
{
}

/// A session clock that falls back by more than five seconds within a session, or another
/// sub-session, is told as a reset, with what was and what is, and the engine starts from
/// nothing. A clock that falls back by less is told as nothing.
pub proof fn a_clock_that_falls_back_by_five_seconds_is_a_reset(
    v: PipelineView,
    frame: TelemetryFrame,
    info: Option<Seq<char>>,
    last: LastFrame,
)
    requires
        v.last == Some(last),
        last.session_num == frame.session_num,
        v.sub_session_id > 0,
        informed(v, frame, info).sub_session_id == v.sub_session_id,
    ensures
        ({
            let w = informed(v, frame, info);
            let opening = opening_events(v, w, frame);
            let fell = last.session_time - frame.session_time;
            &&& fell > 5_000_000 ==> {
                &&& opening.len() >= 1
                &&& opening[0] == (RaceEvent::SessionReset {
                    lap: frame.lap,
                    session_time: frame.session_time,
                    previous_sub_session_id: Some(v.sub_session_id),
                    sub_session_id: v.sub_session_id,
                    previous_session_num: Some(last.session_num),
                    session_num: frame.session_num,
                    previous_session_time: Some(last.session_time),
                    reason: "session_clock_restarted",
                })
                &&& engine_in(v, w, frame) == (EngineView {
                    roster: w.engine.roster,
                    ..fresh_engine(w.engine.anchor_count)
                })
            }
            &&& fell <= 5_000_000 ==> {
                &&& engine_in(v, w, frame) == w.engine
                &&& forall|i: int|
                    0 <= i < opening.len() ==> !(#[trigger] opening[i] is SessionReset)
            }
        }),
{
}

/// What is said of the connection: it is announced with the first frame that is sent, and
/// hello is said with it, each once and in this order, behind what is said of a reset.
pub proof fn the_connection_is_announced_once(
    v: PipelineView,
    frame: TelemetryFrame,
    info: Option<Seq<char>>,
    now_ms: u64,
)
    requires
        informed(v, frame, info).sub_session_id > 0,
        v.last is None,
        v.sub_session_id <= 0,
    ensures
        ({
            let events = frame_events(v, frame, info, now_ms);
            let after = frame_step(v, frame, info, now_ms);
            &&& !v.announced ==> events.len() >= 1 && events[0] == (RaceEvent::IracingConnected {
                lap: frame.lap,
                session_time: frame.session_time,
            })
            &&& !v.announced && v.lifecycle.fresh ==> events.len() >= 2 && events[1] == (
            RaceEvent::PublisherHello {
                lap: frame.lap,
                session_time: frame.session_time,
                version: v.lifecycle.version,
                scope: "driver",
            })
            &&& after.announced
            &&& !after.lifecycle.fresh
            &&& after.last == Some(
                LastFrame {
                    lap: frame.lap,
                    session_time: frame.session_time,
                    session_num: frame.session_num,
                },
            )
        }),
{
}

/// A heartbeat is said with a frame that is sent exactly where its interval has passed
/// since the timer was set, as the last of all, and counts what was sent before it. Every
/// event that is sent is counted.
pub proof fn a_heartbeat_counts_what_was_sent(
    v: PipelineView,
    frame: TelemetryFrame,
    info: Option<Seq<char>>,
    now_ms: u64,
    interval_ms: u64,
    set_at: u64,
)
    requires
        informed(v, frame, info).sub_session_id > 0,
        v.heartbeat.interval_ms == Some(interval_ms),
        v.heartbeat.last_ms == Some(set_at),
        set_at <= now_ms,
        v.enqueued_total + spoken(v, frame, info, now_ms).len() + 1 <= u64::MAX,
    ensures
        ({
            let own = spoken(v, frame, info, now_ms);
            let events = frame_events(v, frame, info, now_ms);
            let after = frame_step(v, frame, info, now_ms);
            &&& now_ms - set_at >= interval_ms ==> {
                &&& events.len() == own.len() + 1
                &&& events.last() == (RaceEvent::PublisherHeartbeat {
                    lap: frame.lap,
                    session_time: frame.session_time,
                    version: v.lifecycle.version,
                    events_enqueued_total: (v.enqueued_total + own.len()) as u64,
                })
                &&& after.heartbeat.last_ms == Some(now_ms)
            }
            &&& now_ms - set_at < interval_ms ==> events == own && after.heartbeat.last_ms == Some(
                set_at,
            )
            &&& after.enqueued_total == v.enqueued_total + events.len()
        }),
{
    assert(informed(v, frame, info).enqueued_total == v.enqueued_total);
    assert(informed(v, frame, info).heartbeat == v.heartbeat);
}

/// The description of the session is read where its count has changed since it was last
/// read, and where the clock stands before that of the last frame; not otherwise.
pub proof fn the_session_is_read_when_it_may_have_changed(v: PipelineView, frame: TelemetryFrame)
    ensures
        wants_info(v, frame) <==> {
            ||| v.cache.last_tick is None
            ||| v.cache.last_tick->0 != frame.session_info_update
            ||| v.last is Some && frame.session_time < (v.last->0).session_time
        },
{
}

/// The description of the session changes what it says and nothing else: a sub-session
/// that it does not name stays, and so does the roster where the drivers cannot be read. A
/// frame for which it is not to be read changes neither.
pub proof fn a_description_changes_what_it_says(
    v: PipelineView,
    frame: TelemetryFrame,
    text: Seq<char>,
)
    ensures
        ({
            let w = informed(v, frame, Some(text));
            let id = crate::session_info::sub_session_in(text);
            let drivers = crate::session_info::drivers_in(text);
            let read = wants_info(v, frame);
            &&& informed(v, frame, None) == v
            &&& !read ==> w == v
            &&& read && id is Some ==> w.sub_session_id == id->0
            &&& read && id is None ==> w.sub_session_id == v.sub_session_id
            &&& read && drivers is Some ==> {
                &&& known_cars(w) == crate::session_info::roster_of(drivers->0)
                &&& w.engine.roster == crate::session_info::roster_of(drivers->0)
                &&& w.cache.last_tick == Some(frame.session_info_update)
            }
            &&& read && drivers is None ==> w.cache == v.cache && w.engine == v.engine
            &&& w.last == v.last && w.run == v.run && w.material == v.material && w.announced
                == v.announced && w.enqueued_total == v.enqueued_total
        }),
{
}

/// A driver is known by name where the roster has the rig's own car with a name that is
/// not empty.
pub proof fn a_driver_is_known_by_name(w: PipelineView, frame: TelemetryFrame)
    ensures
        driver_named(w, frame) <==> {
            &&& w.cache.roster is Some
            &&& (w.cache.roster->0).contains_key(frame.player_car_idx)
            &&& (w.cache.roster->0)[frame.player_car_idx].driver_name.len() >= 1
        },
{
}

/// With another sub-session the reports on the driver begin anew: the first frame is not
/// reported, and no neighbour of the session before is remembered.
pub proof fn reports_begin_anew_with_another_sub_session(
    v: PipelineView,
    frame: TelemetryFrame,
    info: Option<Seq<char>>,
    now_ms: u64,
)
    requires
        v.sub_session_id > 0,
        informed(v, frame, info).sub_session_id != v.sub_session_id,
    ensures
        ({
            let w = informed(v, frame, info);
            let after = frame_step(v, frame, info, now_ms).material;
            &&& material_in(v, w).last_ms is None
            &&& material_in(v, w).interval_ms == v.material.interval_ms
            &&& after.ahead is None && after.behind is None
            &&& w.sub_session_id > 0 && v.material.interval_ms is Some ==> after.last_ms == Some(
                now_ms,
            )
        }),
{
}

} // verus!
