//! How often an event is told.
//!
//! The engine tells of the race and of nothing else; a race ends once; a publisher
//! says hello once, however long it runs.

use vstd::prelude::*;

use crate::basic_incident::{DetectorView, Moment};
use crate::car_registry::{CarView, RegistryView};
use crate::engine::EngineView;
use crate::micro_sector::{Change, SectorView, Streak};
use crate::pipeline::PipelineView;
use crate::race_event::{RaceEvent, RaceEventKind};
use crate::session_watch::SessionWatch;
use crate::telemetry_frame::TelemetryFrame;

verus! {

/// Those of the events that are of a kind, in their order.
pub open spec fn told(events: Seq<RaceEvent>, kind: RaceEventKind) -> Seq<RaceEvent>
    decreases events.len(),
{
    if events.len() == 0 {
        Seq::empty()
    } else if crate::race_event::kind_of(events.last()) == kind {
        told(events.drop_last(), kind).push(events.last())
    } else {
        told(events.drop_last(), kind)
    }
}

/// How many of the events are of a kind.
pub open spec fn tally(events: Seq<RaceEvent>, kind: RaceEventKind) -> nat {
    told(events, kind).len()
}

/// The part of the engine that an event comes from.
pub enum Source {
    Incidents,
    Session,
    PitRoad,
    Battles,
    Laps,
    Closing,
    Sectors,
    /// Not from the engine.
    Elsewhere,
}

/// The part of the engine that tells of a kind.
pub open spec fn source_of(kind: RaceEventKind) -> Source {
    match kind {
        RaceEventKind::IncidentAlert => Source::Incidents,
        RaceEventKind::RaceGreen
        | RaceEventKind::RaceCheckered
        | RaceEventKind::DriverEnteredCar
        | RaceEventKind::DriverExitedCar
        | RaceEventKind::FlagYellowFullCourse
        | RaceEventKind::FlagYellowLocal => Source::Session,
        RaceEventKind::PitEntry | RaceEventKind::PitExit => Source::PitRoad,
        RaceEventKind::BattleEngaged | RaceEventKind::BattleBroken => Source::Battles,
        RaceEventKind::LapCompleted
        | RaceEventKind::Overtake
        | RaceEventKind::OvertakeForLead => Source::Laps,
        RaceEventKind::BattleClosing => Source::Closing,
        RaceEventKind::MicroSectorGain | RaceEventKind::MicroSectorLoss => Source::Sectors,
        _ => Source::Elsewhere,
    }
}

/// Whether the engine tells of this kind.
pub open spec fn of_the_race(kind: RaceEventKind) -> bool {
    !(source_of(kind) is Elsewhere)
}

/// What two rows of events tell of a kind is what the one tells and then the other.
pub proof fn telling_adds_up(a: Seq<RaceEvent>, b: Seq<RaceEvent>, kind: RaceEventKind)
    ensures
        told(a + b, kind) == told(a, kind) + told(b, kind),
        tally(a + b, kind) == tally(a, kind) + tally(b, kind),
    decreases b.len(),
{
    if b.len() == 0 {
        assert(a + b =~= a);
        assert(told(a, kind) + told(b, kind) =~= told(a, kind));
    } else {
        assert((a + b).drop_last() =~= a + b.drop_last());
        telling_adds_up(a, b.drop_last(), kind);
        assert(told(a + b, kind) =~= told(a, kind) + told(b, kind));
    }
}

/// A further event is told of where it is of the kind.
pub proof fn lemma_push(events: Seq<RaceEvent>, e: RaceEvent, kind: RaceEventKind)
    ensures
        told(events.push(e), kind) == if crate::race_event::kind_of(e) == kind {
            told(events, kind).push(e)
        } else {
            told(events, kind)
        },
{
    assert(events.push(e).drop_last() =~= events);
}

/// Incidents are told by alerts only.
proof fn lemma_scanned(d: DetectorView, m: Moment, cars: Seq<CarView>, kind: RaceEventKind)
    requires
        !(source_of(kind) is Incidents),
    ensures
        told(crate::basic_incident::scanned(d, m, cars).1, kind).len() == 0,
    decreases cars.len(),
{
    if cars.len() > 0 {
        lemma_scanned(d, m, cars.drop_last(), kind);
        let (rest, events) = crate::basic_incident::scanned(d, m, cars.drop_last());
        let car = cars.last();
        lemma_push(
            events,
            crate::basic_incident::alert_of(
                m,
                car.car_idx,
                rest.last_snapshot[car.car_idx],
                crate::basic_incident::snapshot_of(car),
            ),
            kind,
        );
    }
}

proof fn lemma_incidents(d: DetectorView, m: Moment, reg: RegistryView, kind: RaceEventKind)
    requires
        !(source_of(kind) is Incidents),
    ensures
        told(crate::basic_incident::detector_events(d, m, reg), kind).len() == 0,
{
    let cars = crate::car_registry::present(reg.cars);
    lemma_scanned(d, m, cars, kind);
    let events = crate::basic_incident::scanned(d, m, cars).1;
    if let Some(car) = crate::car_registry::car_at(reg, m.player_car_idx) {
        lemma_push(events, crate::basic_incident::points_alert(d, m, car), kind);
    }
}

/// A row that is put together step by step tells of what was put in.
pub proof fn lemma_push_if(kind: RaceEventKind)
    ensures
        forall|s: Seq<RaceEvent>, c: bool, e: RaceEvent|
            told(#[trigger] crate::session_watch::push_if(s, c, e), kind) == if c
                && crate::race_event::kind_of(e) == kind {
                told(s, kind).push(e)
            } else {
                told(s, kind)
            },
        told(Seq::<RaceEvent>::empty(), kind) == Seq::<RaceEvent>::empty(),
{
    assert forall|s: Seq<RaceEvent>, c: bool, e: RaceEvent|
        told(#[trigger] crate::session_watch::push_if(s, c, e), kind) == if c
            && crate::race_event::kind_of(e) == kind {
            told(s, kind).push(e)
        } else {
            told(s, kind)
        } by {
        lemma_push(s, e, kind);
    }
}

/// The watch over the session tells of the session only.
proof fn lemma_session(w: SessionWatch, frame: TelemetryFrame, kind: RaceEventKind)
    requires
        !(source_of(kind) is Session),
    ensures
        told(crate::session_watch::session_events(w, frame), kind).len() == 0,
{
    lemma_push_if(kind);
}

/// Pit road tells of pit road only, and so on.
proof fn lemma_pit(prev_on_pit: bool, frame: TelemetryFrame, kind: RaceEventKind)
    requires
        !(source_of(kind) is PitRoad),
    ensures
        told(crate::engine::pit_events(prev_on_pit, frame), kind).len() == 0,
{
    reveal_with_fuel(told, 2);
}

proof fn lemma_engagement(
    e: crate::engagement::Engagement,
    frame: TelemetryFrame,
    nearest: Option<crate::rank::Numbered>,
    prior: crate::engagement::Prior,
    kind: RaceEventKind,
)
    requires
        !(source_of(kind) is Battles),
    ensures
        told(crate::engagement::engagement_events(e, frame, nearest, prior), kind).len() == 0,
{
    let none = Seq::<RaceEvent>::empty();
    let broken = crate::engagement::broken_event(e, frame, nearest);
    lemma_push(none, broken, kind);
    assert(none.push(broken) =~= seq![broken]);
    if crate::engagement::begins(e, frame.session_time, nearest) {
        let engaged = crate::engagement::engaged_event(frame, nearest->0, prior);
        lemma_push(none, engaged, kind);
        lemma_push(seq![broken], engaged, kind);
    }
}

proof fn lemma_gaps(v: EngineView, frame: TelemetryFrame, kind: RaceEventKind)
    requires
        !(source_of(kind) is Battles),
    ensures
        told(crate::engine::gap_events(v, frame), kind).len() == 0,
{
    let player = frame.player_car_idx;
    let ahead = crate::engine::nearest(
        crate::engine::rivals_of(v, frame, crate::gap_finder::Side::Ahead),
    );
    let behind = crate::engine::nearest(
        crate::engine::rivals_of(v, frame, crate::gap_finder::Side::Behind),
    );
    let prior_ahead = crate::engine::prior_with(v.registry, player, ahead);
    let prior_behind = crate::engine::prior_with(v.registry, player, behind);
    lemma_engagement(v.fight_ahead, frame, ahead, prior_ahead, kind);
    lemma_engagement(v.fight_behind, frame, behind, prior_behind, kind);
    telling_adds_up(
        crate::engagement::engagement_events(v.fight_ahead, frame, ahead, prior_ahead),
        crate::engagement::engagement_events(v.fight_behind, frame, behind, prior_behind),
        kind,
    );
}

proof fn lemma_lap(
    b: crate::lap_book::LapBookView,
    frame: TelemetryFrame,
    done: u8,
    lap_time: Option<crate::fixed::Micro>,
    kind: RaceEventKind,
)
    requires
        !(source_of(kind) is Laps),
    ensures
        told(crate::lap_book::closing_events(b, frame, done, lap_time), kind).len() == 0,
{
    reveal_with_fuel(told, 3);
}

proof fn lemma_streaks(
    lap: u8,
    session_time: crate::fixed::Micro,
    change: Change,
    rs: Seq<Streak>,
    anchor_count: usize,
    kind: RaceEventKind,
)
    requires
        !(source_of(kind) is Sectors),
    ensures
        told(
            crate::micro_sector::streak_events(lap, session_time, change, rs, anchor_count),
            kind,
        ).len() == 0,
    decreases rs.len(),
{
    if rs.len() > 0 {
        lemma_streaks(lap, session_time, change, rs.drop_last(), anchor_count, kind);
        lemma_push(
            crate::micro_sector::streak_events(
                lap,
                session_time,
                change,
                rs.drop_last(),
                anchor_count,
            ),
            crate::micro_sector::streak_event(lap, session_time, change, rs.last(), anchor_count),
            kind,
        );
    }
}

proof fn lemma_sectors(
    s: SectorView,
    lap: u8,
    session_time: crate::fixed::Micro,
    clean_lap: bool,
    kind: RaceEventKind,
)
    requires
        !(source_of(kind) is Sectors),
    ensures
        told(crate::micro_sector::lap_events(s, lap, session_time, clean_lap), kind).len() == 0,
{
    let n = s.current_lap_times.len() as usize;
    let gains = crate::micro_sector::streaks(s, Change::Gain);
    let losses = crate::micro_sector::streaks(s, Change::Loss);
    lemma_streaks(lap, session_time, Change::Gain, gains, n, kind);
    lemma_streaks(lap, session_time, Change::Loss, losses, n, kind);
    telling_adds_up(
        crate::micro_sector::streak_events(lap, session_time, Change::Gain, gains, n),
        crate::micro_sector::streak_events(lap, session_time, Change::Loss, losses, n),
        kind,
    );
}

proof fn lemma_pressure(
    v: EngineView,
    frame: TelemetryFrame,
    done: u8,
    side: crate::gap_finder::Side,
    kind: RaceEventKind,
)
    requires
        !(source_of(kind) is Closing),
    ensures
        told(crate::engine::pressure_events(v, frame, done, side), kind).len() == 0,
{
    reveal_with_fuel(told, 2);
}

/// The engine when a lap may be closed: the frame was watched and its gaps taken.
pub open spec fn at_the_line(v: EngineView, frame: TelemetryFrame) -> EngineView {
    crate::engine::gap_step(crate::engine::watch_step(v, frame), frame)
}

/// The lap that a frame ends, where it is a racing one.
pub open spec fn lap_over(v: EngineView, frame: TelemetryFrame) -> Option<u8> {
    if crate::engine::is_racing(frame) {
        crate::lap_book::finished(at_the_line(v, frame).laps, frame.lap)
    } else {
        None
    }
}

/// The events of the lap that a frame ends, where it ends one.
pub open spec fn lap_closing(v: EngineView, frame: TelemetryFrame) -> Seq<RaceEvent> {
    let w = at_the_line(v, frame);
    match lap_over(v, frame) {
        Some(done) => crate::lap_book::closing_events(
            w.laps,
            frame,
            done,
            crate::lap_timer::lap_time(w.lap_times, done),
        ),
        None => Seq::empty(),
    }
}

/// A racing frame, and the lap that it ends, tell of battles, laps and sectors.
proof fn lemma_racing(v: EngineView, frame: TelemetryFrame, kind: RaceEventKind)
    requires
        crate::engine::is_racing(frame),
        !(source_of(kind) is Battles),
        !(source_of(kind) is Closing),
        !(source_of(kind) is Sectors),
    ensures
        told(
            crate::engine::racing_events(crate::engine::watch_step(v, frame), frame),
            kind,
        ) == told(lap_closing(v, frame), kind),
{
    let u = crate::engine::watch_step(v, frame);
    let w = at_the_line(v, frame);
    lemma_gaps(u, frame, kind);
    let gaps = crate::engine::gap_events(u, frame);
    if let Some(done) = crate::lap_book::finished(w.laps, frame.lap) {
        let time = crate::lap_timer::lap_time(w.lap_times, done);
        let a = crate::lap_book::closing_events(w.laps, frame, done, time);
        let b = crate::engine::pressure_events(w, frame, done, crate::gap_finder::Side::Ahead);
        let c = crate::engine::pressure_events(w, frame, done, crate::gap_finder::Side::Behind);
        let d = crate::micro_sector::lap_events(w.sectors, done, frame.session_time, w.lap_clean);
        lemma_pressure(w, frame, done, crate::gap_finder::Side::Ahead, kind);
        lemma_pressure(w, frame, done, crate::gap_finder::Side::Behind, kind);
        lemma_sectors(w.sectors, done, frame.session_time, w.lap_clean, kind);
        telling_adds_up(a, b, kind);
        telling_adds_up(a + b, c, kind);
        telling_adds_up(a + b + c, d, kind);
        telling_adds_up(gaps, a + b + c + d, kind);
        assert(told(a, kind) + told(b, kind) + told(c, kind) + told(d, kind) =~= told(a, kind));
        assert(told(gaps, kind) + told(a, kind) =~= told(a, kind));
    } else {
        assert(told(gaps, kind) =~= told(Seq::<RaceEvent>::empty(), kind));
    }
}

/// What a frame tells of incidents, of the session, of pit road, of laps, and of what
/// is not of the race: what the part that is responsible tells.
pub open spec fn told_by_its_source(
    v: EngineView,
    frame: TelemetryFrame,
    kind: RaceEventKind,
) -> Seq<RaceEvent> {
    match source_of(kind) {
        Source::Incidents => told(
            crate::basic_incident::detector_events(
                v.incidents,
                crate::engine::moment_of(frame),
                crate::engine::registry_after(v, frame),
            ),
            kind,
        ),
        Source::Session => told(crate::session_watch::session_events(v.session, frame), kind),
        Source::PitRoad => told(crate::engine::pit_events(v.prev_on_pit, frame), kind),
        Source::Laps => told(lap_closing(v, frame), kind),
        _ => Seq::empty(),
    }
}

/// Each of these kinds is told by the part that is responsible for it and by no
/// other.
pub proof fn a_kind_is_told_by_its_source(
    v: EngineView,
    frame: TelemetryFrame,
    kind: RaceEventKind,
)
    requires
        !(source_of(kind) is Battles),
        !(source_of(kind) is Closing),
        !(source_of(kind) is Sectors),
    ensures
        told(crate::engine::engine_events(v, frame), kind) == told_by_its_source(v, frame, kind),
{
    let reg = crate::engine::registry_after(v, frame);
    let m = crate::engine::moment_of(frame);
    let a = crate::basic_incident::detector_events(v.incidents, m, reg);
    let b = crate::session_watch::session_events(v.session, frame);
    let c = crate::engine::pit_events(v.prev_on_pit, frame);
    let none = Seq::<RaceEvent>::empty();
    if !(source_of(kind) is Incidents) {
        lemma_incidents(v.incidents, m, reg, kind);
    }
    if !(source_of(kind) is Session) {
        lemma_session(v.session, frame, kind);
    }
    if !(source_of(kind) is PitRoad) {
        lemma_pit(v.prev_on_pit, frame, kind);
    }
    telling_adds_up(a, b, kind);
    telling_adds_up(a + b, c, kind);
    let own = crate::engine::racing_events(crate::engine::watch_step(v, frame), frame);
    let last = lap_closing(v, frame);
    if crate::engine::is_racing(frame) {
        lemma_racing(v, frame, kind);
        telling_adds_up(crate::engine::watch_events(v, frame), own, kind);
        if !(source_of(kind) is Laps) {
            if let Some(done) = lap_over(v, frame) {
                let w = at_the_line(v, frame);
                lemma_lap(
                    w.laps,
                    frame,
                    done,
                    crate::lap_timer::lap_time(w.lap_times, done),
                    kind,
                );
            }
            assert(told(last, kind) =~= none);
        }
        assert(told(a, kind) + told(b, kind) + told(c, kind) + told(last, kind)
            =~= told_by_its_source(v, frame, kind));
    } else {
        assert(told(last, kind) =~= none);
        assert(told(a, kind) + told(b, kind) + told(c, kind) =~= told_by_its_source(
            v,
            frame,
            kind,
        ));
    }
}

/// What a racing frame tells of battles, and what the lap that it ends tells of closing
/// cars and of sectors.
pub open spec fn told_on_the_track(
    v: EngineView,
    frame: TelemetryFrame,
    kind: RaceEventKind,
) -> Seq<RaceEvent> {
    let w = at_the_line(v, frame);
    match source_of(kind) {
        Source::Battles => if crate::engine::is_racing(frame) {
            told(
                crate::engine::gap_events(crate::engine::watch_step(v, frame), frame),
                kind,
            )
        } else {
            Seq::empty()
        },
        Source::Closing => match lap_over(v, frame) {
            Some(done) => told(
                crate::engine::pressure_events(w, frame, done, crate::gap_finder::Side::Ahead),
                kind,
            ) + told(
                crate::engine::pressure_events(w, frame, done, crate::gap_finder::Side::Behind),
                kind,
            ),
            None => Seq::empty(),
        },
        Source::Sectors => match lap_over(v, frame) {
            Some(done) => told(
                crate::micro_sector::lap_events(w.sectors, done, frame.session_time, w.lap_clean),
                kind,
            ),
            None => Seq::empty(),
        },
        _ => Seq::empty(),
    }
}

/// What the lap that a racing frame ends tells of these kinds.
proof fn lemma_line(v: EngineView, frame: TelemetryFrame, done: u8, kind: RaceEventKind)
    requires
        source_of(kind) is Battles || source_of(kind) is Closing || source_of(kind) is Sectors,
        lap_over(v, frame) == Some(done),
    ensures
        ({
            let w = at_the_line(v, frame);
            told(crate::engine::lap_step_events(w, frame, done), kind) == if source_of(kind)
                is Battles {
                Seq::empty()
            } else {
                told_on_the_track(v, frame, kind)
            }
        }),
{
    let w = at_the_line(v, frame);
    let time = crate::lap_timer::lap_time(w.lap_times, done);
    let a = crate::lap_book::closing_events(w.laps, frame, done, time);
    let b = crate::engine::pressure_events(w, frame, done, crate::gap_finder::Side::Ahead);
    let c = crate::engine::pressure_events(w, frame, done, crate::gap_finder::Side::Behind);
    let d = crate::micro_sector::lap_events(w.sectors, done, frame.session_time, w.lap_clean);
    lemma_lap(w.laps, frame, done, time, kind);
    if !(source_of(kind) is Closing) {
        lemma_pressure(w, frame, done, crate::gap_finder::Side::Ahead, kind);
        lemma_pressure(w, frame, done, crate::gap_finder::Side::Behind, kind);
    }
    if !(source_of(kind) is Sectors) {
        lemma_sectors(w.sectors, done, frame.session_time, w.lap_clean, kind);
    }
    telling_adds_up(a, b, kind);
    telling_adds_up(a + b, c, kind);
    telling_adds_up(a + b + c, d, kind);
    let all = told(a, kind) + told(b, kind) + told(c, kind) + told(d, kind);
    if source_of(kind) is Closing {
        assert(all =~= told(b, kind) + told(c, kind));
    } else if source_of(kind) is Sectors {
        assert(all =~= told(d, kind));
    } else {
        assert(all =~= Seq::empty());
    }
}

/// Battles are told by racing frames, closing cars and sectors by the laps that these
/// end, and none of them by anything else.
pub proof fn battles_closing_and_sectors_are_told_on_the_track(
    v: EngineView,
    frame: TelemetryFrame,
    kind: RaceEventKind,
)
    requires
        source_of(kind) is Battles || source_of(kind) is Closing || source_of(kind) is Sectors,
    ensures
        told(crate::engine::engine_events(v, frame), kind) == told_on_the_track(v, frame, kind),
{
    let reg = crate::engine::registry_after(v, frame);
    let m = crate::engine::moment_of(frame);
    let a = crate::basic_incident::detector_events(v.incidents, m, reg);
    let b = crate::session_watch::session_events(v.session, frame);
    let c = crate::engine::pit_events(v.prev_on_pit, frame);
    lemma_incidents(v.incidents, m, reg, kind);
    lemma_session(v.session, frame, kind);
    lemma_pit(v.prev_on_pit, frame, kind);
    telling_adds_up(a, b, kind);
    telling_adds_up(a + b, c, kind);
    let watched = crate::engine::watch_events(v, frame);
    assert(told(watched, kind) =~= Seq::empty());
    if crate::engine::is_racing(frame) {
        let u = crate::engine::watch_step(v, frame);
        let gaps = crate::engine::gap_events(u, frame);
        let own = crate::engine::racing_events(u, frame);
        if !(source_of(kind) is Battles) {
            lemma_gaps(u, frame, kind);
        }
        telling_adds_up(watched, own, kind);
        if let Some(done) = lap_over(v, frame) {
            lemma_line(v, frame, done, kind);
            telling_adds_up(
                gaps,
                crate::engine::lap_step_events(at_the_line(v, frame), frame, done),
                kind,
            );
        }
        assert(told(watched, kind) + told(own, kind) =~= told(own, kind));
        assert(told(own, kind) =~= told_on_the_track(v, frame, kind));
    }
}

/// The checkered flag is told where the session turns checkered.
proof fn lemma_checkered(w: SessionWatch, frame: TelemetryFrame)
    ensures
        told(
            crate::session_watch::session_events(w, frame),
            RaceEventKind::RaceCheckered,
        ).len() == if crate::session_watch::turns_checkered(w, frame) {
            1nat
        } else {
            0nat
        },
{
    lemma_push_if(RaceEventKind::RaceCheckered);
}

/// The engine tells of the race and of nothing else: never of the publisher, its
/// connection or its session.
pub proof fn the_engine_tells_of_the_race_only(
    v: EngineView,
    frame: TelemetryFrame,
    kind: RaceEventKind,
)
    requires
        !of_the_race(kind),
    ensures
        tally(crate::engine::engine_events(v, frame), kind) == 0,
{
    a_kind_is_told_by_its_source(v, frame, kind);
}

/// A race ends once: over any number of frames the checkered flag is told at most
/// once, and not at all where it was told before.
pub proof fn a_race_ends_once(v: EngineView, frames: Seq<TelemetryFrame>)
    ensures
        tally(crate::replay::replayed_events(v, frames), RaceEventKind::RaceCheckered) == if !v.session.checkered_seen
            && crate::replay::replayed(v, frames).session.checkered_seen {
            1nat
        } else {
            0nat
        },
        v.session.checkered_seen ==> crate::replay::replayed(v, frames).session.checkered_seen,
    decreases frames.len(),
{
    if frames.len() > 0 {
        let front = frames.drop_last();
        a_race_ends_once(v, front);
        let before = crate::replay::replayed(v, front);
        a_kind_is_told_by_its_source(before, frames.last(), RaceEventKind::RaceCheckered);
        lemma_checkered(before.session, frames.last());
        telling_adds_up(
            crate::replay::replayed_events(v, front),
            crate::engine::engine_events(before, frames.last()),
            RaceEventKind::RaceCheckered,
        );
    }
}

/// What a publisher is handed with each frame: the frame, the description of the
/// session where it was read, and the time.
pub struct Input {
    pub frame: TelemetryFrame,
    pub info: Option<Seq<char>>,
    pub now_ms: u64,
}

/// A publisher after a row of inputs.
pub open spec fn run(v: PipelineView, inputs: Seq<Input>) -> PipelineView
    decreases inputs.len(),
{
    if inputs.len() == 0 {
        v
    } else {
        let i = inputs.last();
        crate::pipeline::frame_step(run(v, inputs.drop_last()), i.frame, i.info, i.now_ms)
    }
}

/// What a publisher says over a row of inputs.
pub open spec fn said(v: PipelineView, inputs: Seq<Input>) -> Seq<RaceEvent>
    decreases inputs.len(),
{
    if inputs.len() == 0 {
        Seq::empty()
    } else {
        let i = inputs.last();
        said(v, inputs.drop_last()) + crate::pipeline::frame_events(
            run(v, inputs.drop_last()),
            i.frame,
            i.info,
            i.now_ms,
        )
    }
}

/// With a frame hello is said where it was not said before and the sub-session is
/// known, and not otherwise.
#[verifier::rlimit(40)]
#[verifier::spinoff_prover]
proof fn lemma_hello(v: PipelineView, frame: TelemetryFrame, info: Option<Seq<char>>, now_ms: u64)
    ensures
        tally(
            crate::pipeline::frame_events(v, frame, info, now_ms),
            RaceEventKind::PublisherHello,
        ) == if v.lifecycle.fresh && crate::pipeline::informed(v, frame, info).sub_session_id > 0 {
            1nat
        } else {
            0nat
        },
{
    let kind = RaceEventKind::PublisherHello;
    let w = crate::pipeline::informed(v, frame, info);
    let opening = crate::pipeline::opening_events(v, w, frame);
    let engine = crate::pipeline::engine_in(v, w, frame);
    let own = crate::engine::engine_events(engine, frame);
    lemma_push_if(kind);
    a_kind_is_told_by_its_source(engine, frame, kind);
    telling_adds_up(opening, own, kind);
}

/// Hello is said once: over any number of frames a publisher says hello at most
/// once, and not at all where it has said so before.
pub proof fn hello_is_said_once(v: PipelineView, inputs: Seq<Input>)
    ensures
        tally(said(v, inputs), RaceEventKind::PublisherHello) == if v.lifecycle.fresh && !run(
            v,
            inputs,
        ).lifecycle.fresh {
            1nat
        } else {
            0nat
        },
        !v.lifecycle.fresh ==> !run(v, inputs).lifecycle.fresh,
    decreases inputs.len(),
{
    if inputs.len() > 0 {
        let front = inputs.drop_last();
        let i = inputs.last();
        hello_is_said_once(v, front);
        let before = run(v, front);
        lemma_hello(before, i.frame, i.info, i.now_ms);
        telling_adds_up(
            said(v, front),
            crate::pipeline::frame_events(before, i.frame, i.info, i.now_ms),
            RaceEventKind::PublisherHello,
        );
    }
}

} // verus!
