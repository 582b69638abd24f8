//! What the course of a session is told as: the events of a frame, given all the
//! frames before it.

use vstd::prelude::*;

use crate::basic_incident::{detector_events, has_incident, own_alerts, DetectorView, Moment};
use crate::car_registry::{car_at, slots_match, CarView, RegistryView, SLOTS};
use crate::engine::{
    engine_events, engine_step, fresh_engine, registry_after, EngineView,
};
use crate::fixed::Micro;
use crate::lap_book::{
    best_lap, closing_events, completed_event, holder_of, overtake_event, overtook, LapBookView,
};
use crate::lap_timer::lap_time;
use crate::race_event::{FlagScope, LifecycleOrigin, RaceEvent, RaceEventKind};
use crate::replay::{replayed, replayed_events, times_of};
use crate::tally::{
    a_kind_is_told_by_its_source, lemma_push, lemma_push_if, tally, telling_adds_up, told,
};
use crate::telemetry_frame::TelemetryFrame;

verus! {

/// Whether an engine has seen no frame. It may know the cars.
pub open spec fn is_fresh(v: EngineView) -> bool {
    v == (EngineView { roster: v.roster, ..fresh_engine(v.anchor_count) })
}

/// State of the session in the frame before, zero before the first.
pub open spec fn state_before(frames: Seq<TelemetryFrame>) -> i32 {
    if frames.len() == 0 {
        0
    } else {
        frames.last().session_state
    }
}

/// Flags in the frame before, none before the first.
pub open spec fn flags_before(frames: Seq<TelemetryFrame>) -> u32 {
    if frames.len() == 0 {
        0
    } else {
        frames.last().session_flags
    }
}

/// Whether the player was on pit road in the frame before.
pub open spec fn on_pit_before(frames: Seq<TelemetryFrame>) -> bool {
    frames.len() > 0 && frames.last().on_pit_road
}

/// Whether a flag is out that was not out in the frame before.
pub open spec fn comes_out(frames: Seq<TelemetryFrame>, f: TelemetryFrame, bit: u32) -> bool {
    f.session_flags & bit != 0 && flags_before(frames) & bit == 0
}

/// The only event of a row, or none.
pub open spec fn only_if(c: bool, e: RaceEvent) -> Seq<RaceEvent> {
    if c {
        seq![e]
    } else {
        Seq::empty()
    }
}

/// Where a lifecycle event of a frame comes from.
pub open spec fn origin_after(frames: Seq<TelemetryFrame>) -> LifecycleOrigin {
    if frames.len() == 0 {
        LifecycleOrigin::ConnectSnapshot
    } else {
        LifecycleOrigin::SessionStateTransition
    }
}

/// What the engine remembers of the frame before.
proof fn lemma_last_frame(v: EngineView, frames: Seq<TelemetryFrame>)
    requires
        is_fresh(v),
    ensures
        ({
            let s = replayed(v, frames);
            &&& s.session.prev_state == if frames.len() == 0 {
                None
            } else {
                Some(frames.last().session_state)
            }
            &&& s.session.prev_flags == flags_before(frames)
            &&& s.prev_on_pit == on_pit_before(frames)
            &&& s.laps.prev_lap == if frames.len() == 0 {
                None
            } else {
                Some(frames.last().lap)
            }
        }),
{
    if frames.len() > 0 {
        let before = replayed(v, frames.drop_last());
        assert(replayed(v, frames) == engine_step(before, frames.last()));
    }
}

/// The race is told to turn green exactly where the session is in its racing state
/// and was not in the frame before, once, whatever the lap and the position are.
pub proof fn green_is_told_when_racing_begins(
    v: EngineView,
    frames: Seq<TelemetryFrame>,
    f: TelemetryFrame,
)
    requires
        is_fresh(v),
    ensures
        told(engine_events(replayed(v, frames), f), RaceEventKind::RaceGreen) == only_if(
            f.session_state == 4 && state_before(frames) != 4,
            RaceEvent::RaceGreen {
                lap: f.lap,
                session_time: f.session_time,
                synthetic: frames.len() == 0,
                origin: origin_after(frames),
            },
        ),
{
    let s = replayed(v, frames);
    lemma_last_frame(v, frames);
    lemma_push_if(RaceEventKind::RaceGreen);
    a_kind_is_told_by_its_source(s, f, RaceEventKind::RaceGreen);
    assert(told(engine_events(s, f), RaceEventKind::RaceGreen) =~= only_if(
        f.session_state == 4 && state_before(frames) != 4,
        RaceEvent::RaceGreen {
            lap: f.lap,
            session_time: f.session_time,
            synthetic: frames.len() == 0,
            origin: origin_after(frames),
        },
    ));
}

/// Whether a frame shows the end of the race: by its state, by the flag, or by going
/// straight from racing to the cool-down.
pub open spec fn shows_the_end(frames: Seq<TelemetryFrame>, f: TelemetryFrame) -> bool {
    (f.session_state == 5 && state_before(frames) != 5)
        || f.session_flags & 0x0001 != 0 || (f.session_state == 6 && state_before(
        frames,
    ) == 4)
}

/// The end of the race is told with the first frame that shows it, once, and never
/// again.
pub proof fn the_end_is_told_when_it_is_first_shown(
    v: EngineView,
    frames: Seq<TelemetryFrame>,
    f: TelemetryFrame,
)
    requires
        is_fresh(v),
    ensures
        told(engine_events(replayed(v, frames), f), RaceEventKind::RaceCheckered) == only_if(
            shows_the_end(frames, f) && tally(
                replayed_events(v, frames),
                RaceEventKind::RaceCheckered,
            ) == 0,
            RaceEvent::RaceCheckered {
                lap: f.lap,
                session_time: f.session_time,
                synthetic: frames.len() == 0,
                origin: origin_after(frames),
            },
        ),
{
    let s = replayed(v, frames);
    lemma_last_frame(v, frames);
    lemma_push_if(RaceEventKind::RaceCheckered);
    crate::tally::a_race_ends_once(v, frames);
    a_kind_is_told_by_its_source(s, f, RaceEventKind::RaceCheckered);
    assert(told(engine_events(s, f), RaceEventKind::RaceCheckered) =~= only_if(
        crate::session_watch::turns_checkered(s.session, f),
        RaceEvent::RaceCheckered {
            lap: f.lap,
            session_time: f.session_time,
            synthetic: frames.len() == 0,
            origin: origin_after(frames),
        },
    ));
}

/// A caution is told exactly where it comes out, once; a local yellow exactly where
/// it comes out and no caution does; so never both with one frame.
pub proof fn yellows_are_told_when_they_come_out(
    v: EngineView,
    frames: Seq<TelemetryFrame>,
    f: TelemetryFrame,
)
    requires
        is_fresh(v),
    ensures
        told(
            engine_events(replayed(v, frames), f),
            RaceEventKind::FlagYellowFullCourse,
        ) == only_if(
            comes_out(frames, f, 0x4000),
            RaceEvent::FlagYellowFullCourse { lap: f.lap, session_time: f.session_time },
        ),
        told(engine_events(replayed(v, frames), f), RaceEventKind::FlagYellowLocal) == only_if(
            comes_out(frames, f, 0x0100) && !comes_out(frames, f, 0x4000),
            RaceEvent::FlagYellowLocal {
                lap: f.lap,
                session_time: f.session_time,
                trigger_car_idx: None,
                lap_dist_pct: Some(f.lap_dist_pct),
                sector: None,
                scope: FlagScope::Unknown,
                linked_incident_id: None,
            },
        ),
{
    let s = replayed(v, frames);
    let full = RaceEvent::FlagYellowFullCourse { lap: f.lap, session_time: f.session_time };
    let local = RaceEvent::FlagYellowLocal {
        lap: f.lap,
        session_time: f.session_time,
        trigger_car_idx: None,
        lap_dist_pct: Some(f.lap_dist_pct),
        sector: None,
        scope: FlagScope::Unknown,
        linked_incident_id: None,
    };
    lemma_last_frame(v, frames);
    lemma_push_if(RaceEventKind::FlagYellowFullCourse);
    a_kind_is_told_by_its_source(s, f, RaceEventKind::FlagYellowFullCourse);
    assert(told(engine_events(s, f), RaceEventKind::FlagYellowFullCourse) =~= only_if(
        comes_out(frames, f, 0x4000),
        full,
    ));
    lemma_push_if(RaceEventKind::FlagYellowLocal);
    a_kind_is_told_by_its_source(s, f, RaceEventKind::FlagYellowLocal);
    assert(told(engine_events(s, f), RaceEventKind::FlagYellowLocal) =~= only_if(
        comes_out(frames, f, 0x0100) && !comes_out(frames, f, 0x4000),
        local,
    ));
}

/// A yellow that stays out is not told again.
pub proof fn a_yellow_that_stays_out_is_not_told_again(
    v: EngineView,
    frames: Seq<TelemetryFrame>,
    f: TelemetryFrame,
)
    requires
        is_fresh(v),
    ensures
        flags_before(frames) & 0x4000 != 0 ==> tally(
            engine_events(replayed(v, frames), f),
            RaceEventKind::FlagYellowFullCourse,
        ) == 0,
        flags_before(frames) & 0x0100 != 0 ==> tally(
            engine_events(replayed(v, frames), f),
            RaceEventKind::FlagYellowLocal,
        ) == 0,
{
    yellows_are_told_when_they_come_out(v, frames, f);
}

/// Coming in and going out are told exactly where the player is on pit road and was
/// not, or was and is not, once, with the lap, the time and the position of the
/// frame; also where the player is not classified.
pub proof fn pit_road_is_told_when_it_is_entered_and_left(
    v: EngineView,
    frames: Seq<TelemetryFrame>,
    f: TelemetryFrame,
)
    requires
        is_fresh(v),
    ensures
        told(engine_events(replayed(v, frames), f), RaceEventKind::PitEntry) == only_if(
            f.on_pit_road && !on_pit_before(frames),
            RaceEvent::PitEntry {
                lap: f.lap,
                session_time: f.session_time,
                player_car_idx: f.player_car_idx,
                position: f.player_car_position,
            },
        ),
        told(engine_events(replayed(v, frames), f), RaceEventKind::PitExit) == only_if(
            !f.on_pit_road && on_pit_before(frames),
            RaceEvent::PitExit {
                lap: f.lap,
                session_time: f.session_time,
                player_car_idx: f.player_car_idx,
                position: f.player_car_position,
            },
        ),
{
    reveal_with_fuel(told, 2);
    let s = replayed(v, frames);
    lemma_last_frame(v, frames);
    a_kind_is_told_by_its_source(s, f, RaceEventKind::PitEntry);
    a_kind_is_told_by_its_source(s, f, RaceEventKind::PitExit);
    assert(told(engine_events(s, f), RaceEventKind::PitEntry) =~= only_if(
        f.on_pit_road && !on_pit_before(frames),
        RaceEvent::PitEntry {
            lap: f.lap,
            session_time: f.session_time,
            player_car_idx: f.player_car_idx,
            position: f.player_car_position,
        },
    ));
    assert(told(engine_events(s, f), RaceEventKind::PitExit) =~= only_if(
        !f.on_pit_road && on_pit_before(frames),
        RaceEvent::PitExit {
            lap: f.lap,
            session_time: f.session_time,
            player_car_idx: f.player_car_idx,
            position: f.player_car_position,
        },
    ));
}

/// Whether the player races in a frame: in a position, and in the first lap or a later
/// one.
pub open spec fn races(f: TelemetryFrame) -> bool {
    f.player_car_position >= 1 && f.lap >= 1
}

/// Those of the frames in which the player races.
pub open spec fn racing_frames(frames: Seq<TelemetryFrame>) -> Seq<TelemetryFrame>
    decreases frames.len(),
{
    if frames.len() == 0 {
        frames
    } else if races(frames.last()) {
        racing_frames(frames.drop_last()).push(frames.last())
    } else {
        racing_frames(frames.drop_last())
    }
}

/// How many of the frames show the player on pit road in a lap.
pub open spec fn pit_road_frames(frames: Seq<TelemetryFrame>, lap: u8) -> nat
    decreases frames.len(),
{
    if frames.len() == 0 {
        0
    } else {
        pit_road_frames(frames.drop_last(), lap) + if frames.last().on_pit_road
            && frames.last().lap == lap {
            1nat
        } else {
            0nat
        }
    }
}

/// A number as it is counted: held at the end of the counter's range.
pub open spec fn as_counted(n: nat) -> u32 {
    if n > u32::MAX {
        u32::MAX
    } else {
        n as u32
    }
}

/// Whether a frame ends a lap: the player races in it, and it is not the lap of the
/// frame before.
pub open spec fn ends_a_lap(frames: Seq<TelemetryFrame>, f: TelemetryFrame) -> bool {
    races(f) && frames.len() > 0 && f.lap != frames.last().lap
}

/// The position that a lap is said to end in: that of the last racing frame before,
/// or of the frame itself where there was none.
pub open spec fn position_at_the_line(frames: Seq<TelemetryFrame>, f: TelemetryFrame) -> u8 {
    let r = racing_frames(frames);
    if r.len() > 0 {
        r.last().player_car_position
    } else {
        f.player_car_position
    }
}

/// The time of the lap that a frame ends, where it was timed.
pub open spec fn time_at_the_line(frames: Seq<TelemetryFrame>, f: TelemetryFrame) -> Option<
    Micro,
> {
    lap_time(times_of(racing_frames(frames).push(f)), frames.last().lap)
}

/// The frames on pit road of the lap that a frame ends.
pub open spec fn pit_frames_at_the_line(frames: Seq<TelemetryFrame>) -> u32 {
    as_counted(pit_road_frames(racing_frames(frames), frames.last().lap))
}

/// The laps that were told, in their order.
pub open spec fn laps_told(v: EngineView, frames: Seq<TelemetryFrame>) -> Seq<RaceEvent> {
    told(replayed_events(v, frames), RaceEventKind::LapCompleted)
}

/// The time that an event gives a lap.
pub open spec fn time_in(e: RaceEvent) -> Option<Micro> {
    match e {
        RaceEvent::LapCompleted { lap_time_s, .. } => lap_time_s,
        _ => None,
    }
}

/// The least of the times of some laps, as far as they were timed.
pub open spec fn best_of(laps: Seq<RaceEvent>) -> Option<Micro>
    decreases laps.len(),
{
    if laps.len() == 0 {
        None
    } else {
        best_lap(best_of(laps.drop_last()), time_in(laps.last()))
    }
}

/// The position that a lap ended in, where it was told; the last time that it was.
pub open spec fn told_position(laps: Seq<RaceEvent>, lap: u8) -> Option<u8>
    decreases laps.len(),
{
    if laps.len() == 0 {
        None
    } else {
        match laps.last() {
            RaceEvent::LapCompleted { lap: l, position, .. } => if l == lap {
                Some(position)
            } else {
                told_position(laps.drop_last(), lap)
            },
            _ => told_position(laps.drop_last(), lap),
        }
    }
}

/// Whether a lap was told as one through the pits.
pub open spec fn told_as_pit_lap(laps: Seq<RaceEvent>, lap: u8) -> bool
    decreases laps.len(),
{
    laps.len() > 0 && (told_as_pit_lap(laps.drop_last(), lap) || match laps.last() {
        RaceEvent::LapCompleted { lap: l, pit_frames, .. } => l == lap && pit_frames
            >= 20,
        _ => false,
    })
}

/// What the engine remembers of the racing frames.
proof fn lemma_racing_state(v: EngineView, frames: Seq<TelemetryFrame>)
    requires
        is_fresh(v),
    ensures
        ({
            let s = replayed(v, frames);
            let r = racing_frames(frames);
            &&& s.lap_times == times_of(r)
            &&& s.laps.prev_position == if r.len() == 0 {
                None
            } else {
                Some(r.last().player_car_position)
            }
            &&& forall|lap: u8| #[trigger]
                crate::lap_book::pit_frames_of(s.laps, lap) == as_counted(pit_road_frames(r, lap))
        }),
    decreases frames.len(),
{
    if frames.len() > 0 {
        let front = frames.drop_last();
        let f = frames.last();
        lemma_racing_state(v, front);
        let s = replayed(v, front);
        let r = racing_frames(front);
        assert(replayed(v, frames) == engine_step(s, f));
        if races(f) {
            assert(r.push(f).drop_last() =~= r);
            assert(times_of(r.push(f)) == crate::lap_timer::timed(
                times_of(r),
                f.lap,
                f.session_time,
            ));
            let w = crate::tally::at_the_line(s, f);
            assert forall|lap: u8| #[trigger]
                crate::lap_book::pit_frames_of(replayed(v, frames).laps, lap) == as_counted(
                    pit_road_frames(r.push(f), lap),
                ) by {
                assert(crate::lap_book::pit_frames_of(s.laps, lap) == as_counted(
                    pit_road_frames(r, lap),
                ));
                assert(replayed(v, frames).laps.pit_frames == w.laps.pit_frames);
            }
        } else {
            assert forall|lap: u8| #[trigger]
                crate::lap_book::pit_frames_of(replayed(v, frames).laps, lap) == as_counted(
                    pit_road_frames(r, lap),
                ) by {
                assert(crate::lap_book::pit_frames_of(s.laps, lap) == as_counted(
                    pit_road_frames(r, lap),
                ));
                assert(replayed(v, frames).laps.pit_frames == s.laps.pit_frames);
            }
        }
    }
}

/// The lap that a frame ends, as it is told, where `best` is the best time of the
/// laps before.
pub open spec fn lap_event(
    frames: Seq<TelemetryFrame>,
    f: TelemetryFrame,
    best: Option<Micro>,
) -> RaceEvent {
    RaceEvent::LapCompleted {
        lap: frames.last().lap,
        session_time: f.session_time,
        player_car_idx: f.player_car_idx,
        lap_time_s: time_at_the_line(frames, f),
        best_lap_time_s: best_lap(best, time_at_the_line(frames, f)),
        position: position_at_the_line(frames, f),
        pit_frames: pit_frames_at_the_line(frames),
    }
}

/// What stands in the book when a lap may be closed.
pub proof fn lemma_at_the_line(v: EngineView, frames: Seq<TelemetryFrame>, f: TelemetryFrame)
    requires
        is_fresh(v),
    ensures
        ({
            let s = replayed(v, frames);
            let w = crate::tally::at_the_line(s, f);
            &&& crate::tally::lap_over(s, f) == if ends_a_lap(frames, f) {
                Some(frames.last().lap)
            } else {
                None
            }
            &&& ends_a_lap(frames, f) ==> {
                &&& lap_time(w.lap_times, frames.last().lap) == time_at_the_line(frames, f)
                &&& crate::lap_book::end_position(w.laps, f) == position_at_the_line(frames, f)
                &&& crate::lap_book::pit_frames_of(w.laps, frames.last().lap)
                    == pit_frames_at_the_line(frames)
                &&& w.laps.end_positions == s.laps.end_positions
                &&& w.laps.pit_laps == s.laps.pit_laps
                &&& w.laps.best_lap_time_s == s.laps.best_lap_time_s
            }
        }),
{
    lemma_last_frame(v, frames);
    lemma_racing_state(v, frames);
    let r = racing_frames(frames);
    assert(r.push(f).drop_last() =~= r);
    if ends_a_lap(frames, f) {
        let s = replayed(v, frames);
        assert(crate::lap_book::pit_frames_of(s.laps, frames.last().lap) == as_counted(
            pit_road_frames(r, frames.last().lap),
        ));
    }
}

/// A finished lap is told once, and won positions are told behind it.
proof fn lemma_closing_told(
    b: LapBookView,
    f: TelemetryFrame,
    done: u8,
    lap_time: Option<Micro>,
    kind: RaceEventKind,
)
    ensures
        told(closing_events(b, f, done, lap_time), kind) == if kind
            == RaceEventKind::LapCompleted {
            seq![completed_event(b, f, done, lap_time)]
        } else {
            only_if(
                overtook(b, f, done) && crate::race_event::kind_of(overtake_event(b, f, done))
                    == kind,
                overtake_event(b, f, done),
            )
        },
{
    let none = Seq::<RaceEvent>::empty();
    let completed = completed_event(b, f, done, lap_time);
    let won = overtake_event(b, f, done);
    lemma_push_if(kind);
    lemma_push(none, completed, kind);
    lemma_push(none.push(completed), won, kind);
    assert(seq![completed] =~= none.push(completed));
    assert(seq![completed, won] =~= none.push(completed).push(won));
    assert(seq![won] =~= none.push(won));
}

/// A lap is told where a frame ends one, over what the book holds of it.
proof fn lemma_lap_told(v: EngineView, frames: Seq<TelemetryFrame>, f: TelemetryFrame)
    requires
        is_fresh(v),
    ensures
        told(engine_events(replayed(v, frames), f), RaceEventKind::LapCompleted) == only_if(
            ends_a_lap(frames, f),
            lap_event(frames, f, replayed(v, frames).laps.best_lap_time_s),
        ),
{
    let s = replayed(v, frames);
    let w = crate::tally::at_the_line(s, f);
    let q = frames.last().lap;
    lemma_at_the_line(v, frames, f);
    lemma_push_if(RaceEventKind::LapCompleted);
    lemma_closing_told(
        w.laps,
        f,
        q,
        lap_time(w.lap_times, q),
        RaceEventKind::LapCompleted,
    );
    a_kind_is_told_by_its_source(s, f, RaceEventKind::LapCompleted);
}

/// What the book holds is what was told: the best time, where laps ended, which of
/// them went through the pits.
pub proof fn lemma_book(v: EngineView, frames: Seq<TelemetryFrame>)
    requires
        is_fresh(v),
    ensures
        ({
            let b = replayed(v, frames).laps;
            let laps = laps_told(v, frames);
            &&& b.best_lap_time_s == best_of(laps)
            &&& forall|lap: u8| #[trigger]
                b.pit_laps.contains(lap) == told_as_pit_lap(laps, lap)
            &&& forall|lap: u8|
                (if #[trigger] b.end_positions.contains_key(lap) {
                    Some(b.end_positions[lap])
                } else {
                    None
                }) == told_position(laps, lap)
        }),
    decreases frames.len(),
{
    if frames.len() > 0 {
        let front = frames.drop_last();
        let f = frames.last();
        lemma_book(v, front);
        lemma_at_the_line(v, front, f);
        lemma_lap_told(v, front, f);
        let s = replayed(v, front);
        telling_adds_up(
            replayed_events(v, front),
            engine_events(s, f),
            RaceEventKind::LapCompleted,
        );
        let old_laps = laps_told(v, front);
        let new_laps = laps_told(v, frames);
        let b = replayed(v, frames).laps;
        assert(replayed(v, frames) == engine_step(s, f));
        if ends_a_lap(front, f) {
            let e = lap_event(front, f, s.laps.best_lap_time_s);
            assert(new_laps =~= old_laps.push(e));
            assert(new_laps.drop_last() =~= old_laps);
            assert forall|lap: u8| #[trigger]
                b.pit_laps.contains(lap) == told_as_pit_lap(new_laps, lap) by {
                assert(s.laps.pit_laps.contains(lap) == told_as_pit_lap(old_laps, lap));
            }
            assert forall|lap: u8|
                (if #[trigger] b.end_positions.contains_key(lap) {
                    Some(b.end_positions[lap])
                } else {
                    None
                }) == told_position(new_laps, lap) by {
                assert((if s.laps.end_positions.contains_key(lap) {
                    Some(s.laps.end_positions[lap])
                } else {
                    None
                }) == told_position(old_laps, lap));
            }
        } else {
            assert(new_laps =~= old_laps);
            assert(b.pit_laps == s.laps.pit_laps);
            assert(b.end_positions == s.laps.end_positions);
            assert forall|lap: u8|
                (if #[trigger] b.end_positions.contains_key(lap) {
                    Some(b.end_positions[lap])
                } else {
                    None
                }) == told_position(new_laps, lap) by {
                assert((if s.laps.end_positions.contains_key(lap) {
                    Some(s.laps.end_positions[lap])
                } else {
                    None
                }) == told_position(old_laps, lap));
            }
        }
    }
}

/// A lap is told exactly where a racing frame is not of the lap of the frame before,
/// once: the lap of that frame, in the position of the last racing frame, with the
/// racing frames that it spent on pit road, its own time, and the best time of all
/// laps so far.
pub proof fn a_lap_is_told_when_the_next_begins(
    v: EngineView,
    frames: Seq<TelemetryFrame>,
    f: TelemetryFrame,
)
    requires
        is_fresh(v),
    ensures
        told(engine_events(replayed(v, frames), f), RaceEventKind::LapCompleted) == only_if(
            ends_a_lap(frames, f),
            lap_event(frames, f, best_of(laps_told(v, frames))),
        ),
{
    lemma_lap_told(v, frames, f);
    lemma_book(v, frames);
}

/// The best time is the least of those that were taken: none where none was, one of
/// them otherwise, and none of them is less.
pub proof fn the_best_time_is_the_least(laps: Seq<RaceEvent>)
    ensures
        best_of(laps) is None <==> forall|k: int|
            0 <= k < laps.len() ==> time_in(#[trigger] laps[k]) is None,
        best_of(laps) matches Some(b) ==> exists|k: int|
            0 <= k < laps.len() && time_in(#[trigger] laps[k]) == Some(b),
        forall|k: int|
            0 <= k < laps.len() && time_in(#[trigger] laps[k]) is Some ==> best_of(laps) is Some
                && best_of(laps)->0 <= time_in(laps[k])->0,
    decreases laps.len(),
{
    if laps.len() > 0 {
        let front = laps.drop_last();
        the_best_time_is_the_least(front);
        assert forall|k: int| 0 <= k < laps.len() && time_in(#[trigger] laps[k]) is Some implies
            best_of(laps) is Some && best_of(laps)->0 <= time_in(laps[k])->0 by {
            if k < front.len() {
                assert(front[k] == laps[k]);
            }
        }
        if best_of(laps) is None {
            assert forall|k: int| 0 <= k < laps.len() implies time_in(#[trigger] laps[k]) is None by {
                if k < front.len() {
                    assert(front[k] == laps[k]);
                }
            }
        } else {
            let b = best_of(laps)->0;
            if time_in(laps.last()) == Some(b) {
                assert(laps[laps.len() - 1] == laps.last());
            } else {
                let k = choose|k: int|
                    0 <= k < front.len() && time_in(#[trigger] front[k]) == Some(b);
                assert(laps[k] == front[k]);
            }
        }
    }
}

/// The best time that an event gives.
pub open spec fn best_in(e: RaceEvent) -> Option<Micro> {
    match e {
        RaceEvent::LapCompleted { best_lap_time_s, .. } => best_lap_time_s,
        _ => None,
    }
}

/// Every lap is told with the best time of the laps up to it and itself.
pub proof fn each_lap_carries_the_best_time(
    v: EngineView,
    frames: Seq<TelemetryFrame>,
    k: int,
)
    requires
        is_fresh(v),
        0 <= k < laps_told(v, frames).len(),
    ensures
        best_in(laps_told(v, frames)[k]) == best_of(laps_told(v, frames).take(k + 1)),
    decreases frames.len(),
{
    let laps = laps_told(v, frames);
    let front = frames.drop_last();
    let f = frames.last();
    let old_laps = laps_told(v, front);
    a_lap_is_told_when_the_next_begins(v, front, f);
    telling_adds_up(
        replayed_events(v, front),
        engine_events(replayed(v, front), f),
        RaceEventKind::LapCompleted,
    );
    if k < old_laps.len() {
        each_lap_carries_the_best_time(v, front, k);
        assert(laps.take(k + 1) =~= old_laps.take(k + 1));
    } else {
        assert(laps.take(k + 1).drop_last() =~= old_laps);
        assert(laps.take(k + 1).last() == laps[k]);
    }
}

/// The best time never rises and is never forgotten, and no lap is told with a best
/// time above its own.
pub proof fn the_best_time_never_rises(
    v: EngineView,
    frames: Seq<TelemetryFrame>,
    i: int,
    k: int,
)
    requires
        is_fresh(v),
        0 <= i <= k < laps_told(v, frames).len(),
    ensures
        best_in(laps_told(v, frames)[i]) is Some ==> best_in(laps_told(v, frames)[k]) is Some
            && best_in(laps_told(v, frames)[k])->0 <= best_in(laps_told(v, frames)[i])->0,
        time_in(laps_told(v, frames)[k]) is Some ==> best_in(laps_told(v, frames)[k]) is Some
            && best_in(laps_told(v, frames)[k])->0 <= time_in(laps_told(v, frames)[k])->0,
{
    let laps = laps_told(v, frames);
    each_lap_carries_the_best_time(v, frames, i);
    each_lap_carries_the_best_time(v, frames, k);
    the_best_time_is_the_least(laps.take(i + 1));
    the_best_time_is_the_least(laps.take(k + 1));
    assert(laps.take(k + 1)[k] == laps[k]);
    if best_in(laps[i]) is Some {
        let b = best_in(laps[i])->0;
        let j = choose|j: int|
            0 <= j < laps.take(i + 1).len() && time_in(#[trigger] laps.take(i + 1)[j]) == Some(b);
        assert(laps.take(k + 1)[j] == laps.take(i + 1)[j]);
    }
}

/// Whether the lap that a frame ends won positions on the track: the lap before it
/// ended further back, and it did not go through the pits.
pub open spec fn wins_positions(
    laps: Seq<RaceEvent>,
    frames: Seq<TelemetryFrame>,
    f: TelemetryFrame,
) -> bool {
    let q = frames.last().lap;
    ends_a_lap(frames, f) && q > 0 && told_position(laps, (q - 1) as u8) is Some && told_position(
        laps,
        (q - 1) as u8,
    )->0 > position_at_the_line(frames, f) && pit_frames_at_the_line(frames)
        < 20 && !told_as_pit_lap(laps, q)
}

/// Won positions are told exactly where a lap ends further forward than the lap
/// before it and did not go through the pits, once: as the lead where the lap ends in
/// front, as an overtake otherwise. A frame that ends no lap tells of neither.
pub proof fn won_positions_are_told_at_the_end_of_a_lap(
    v: EngineView,
    frames: Seq<TelemetryFrame>,
    f: TelemetryFrame,
)
    requires
        is_fresh(v),
    ensures
        ({
            let laps = laps_told(v, frames);
            let q = frames.last().lap;
            let from = told_position(laps, (q - 1) as u8)->0;
            let to = position_at_the_line(frames, f);
            let wins = wins_positions(laps, frames, f);
            &&& told(engine_events(replayed(v, frames), f), RaceEventKind::Overtake) == only_if(
                wins && to != 1,
                RaceEvent::Overtake {
                    lap: q,
                    session_time: f.session_time,
                    car_idx: f.player_car_idx,
                    overtaken_car_idx: holder_of(f, to + 1, 0),
                    position_from: from,
                    position_to: to,
                    positions_gained: (from - to) as u8,
                },
            )
            &&& told(
                engine_events(replayed(v, frames), f),
                RaceEventKind::OvertakeForLead,
            ) == only_if(
                wins && to == 1,
                RaceEvent::OvertakeForLead {
                    lap: q,
                    session_time: f.session_time,
                    car_idx: f.player_car_idx,
                    overtaken_car_idx: holder_of(f, to + 1, 0),
                    position_from: from,
                    positions_gained: (from - to) as u8,
                },
            )
        }),
{
    let s = replayed(v, frames);
    let laps = laps_told(v, frames);
    let q = frames.last().lap;
    let w = crate::tally::at_the_line(s, f);
    lemma_at_the_line(v, frames, f);
    lemma_book(v, frames);
    lemma_push_if(RaceEventKind::Overtake);
    lemma_push_if(RaceEventKind::OvertakeForLead);
    let time = lap_time(w.lap_times, q);
    lemma_closing_told(w.laps, f, q, time, RaceEventKind::Overtake);
    lemma_closing_told(w.laps, f, q, time, RaceEventKind::OvertakeForLead);
    a_kind_is_told_by_its_source(s, f, RaceEventKind::Overtake);
    a_kind_is_told_by_its_source(s, f, RaceEventKind::OvertakeForLead);
    if ends_a_lap(frames, f) {
        assert(s.laps.pit_laps.contains(q) == told_as_pit_lap(laps, q));
        if q > 0 {
            let p = (q - 1) as u8;
            assert((if s.laps.end_positions.contains_key(p) {
                Some(s.laps.end_positions[p])
            } else {
                None
            }) == told_position(laps, p));
        }
        assert(overtook(w.laps, f, q) == wins_positions(laps, frames, f));
    }
}

/// Whether lap numbers never fall.
pub open spec fn laps_never_fall(frames: Seq<TelemetryFrame>) -> bool {
    forall|i: int, k: int| 0 <= i <= k < frames.len() ==> (#[trigger] frames[i]).lap <= (
    #[trigger] frames[k]).lap
}

/// The lap that an event is about.
pub open spec fn lap_in(e: RaceEvent) -> u8 {
    crate::race_event::lap_of(e)
}

/// The position that an event gives the end of a lap.
pub open spec fn position_in(e: RaceEvent) -> u8 {
    match e {
        RaceEvent::LapCompleted { position, .. } => position,
        _ => 0,
    }
}

/// Where lap numbers never fall, each lap is told once, in their order, and before
/// the one that is under way.
pub proof fn laps_are_told_in_their_order(v: EngineView, frames: Seq<TelemetryFrame>)
    requires
        is_fresh(v),
        laps_never_fall(frames),
    ensures
        ({
            let laps = laps_told(v, frames);
            &&& forall|k: int|
                0 <= k < laps.len() ==> (#[trigger] laps[k]) is LapCompleted && lap_in(laps[k])
                    < frames.last().lap
            &&& forall|i: int, k: int|
                0 <= i < k < laps.len() ==> lap_in(#[trigger] laps[i]) < lap_in(
                    #[trigger] laps[k],
                )
        }),
    decreases frames.len(),
{
    if frames.len() > 0 {
        let front = frames.drop_last();
        let f = frames.last();
        assert forall|i: int, k: int| 0 <= i <= k < front.len() implies (#[trigger] front[i]).lap
            <= (#[trigger] front[k]).lap by {
            assert(front[i] == frames[i] && front[k] == frames[k]);
        }
        laps_are_told_in_their_order(v, front);
        a_lap_is_told_when_the_next_begins(v, front, f);
        telling_adds_up(
            replayed_events(v, front),
            engine_events(replayed(v, front), f),
            RaceEventKind::LapCompleted,
        );
        let old_laps = laps_told(v, front);
        let laps = laps_told(v, frames);
        if front.len() > 0 {
            assert(frames[front.len() - 1].lap <= frames[frames.len() - 1].lap);
        }
        assert forall|k: int| 0 <= k < laps.len() implies (#[trigger] laps[k]) is LapCompleted
            && lap_in(laps[k]) < frames.last().lap by {
            if k < old_laps.len() {
                assert(laps[k] == old_laps[k]);
            }
        }
        assert forall|i: int, k: int| 0 <= i < k < laps.len() implies lap_in(#[trigger] laps[i])
            < lap_in(#[trigger] laps[k]) by {
            assert(laps[i] == old_laps[i]);
            if k < old_laps.len() {
                assert(laps[k] == old_laps[k]);
            }
        }
    }
}

/// A lap that was told once is found with its position, and is a pit lap where it
/// was told as one.
proof fn lemma_told_once(laps: Seq<RaceEvent>, lap: u8)
    requires
        forall|k: int| 0 <= k < laps.len() ==> (#[trigger] laps[k]) is LapCompleted,
        forall|i: int, k: int|
            0 <= i < k < laps.len() ==> lap_in(#[trigger] laps[i]) < lap_in(#[trigger] laps[k]),
    ensures
        forall|k: int|
            0 <= k < laps.len() && lap_in(#[trigger] laps[k]) == lap ==> told_position(laps, lap)
                == Some(position_in(laps[k])),
        (forall|k: int| 0 <= k < laps.len() ==> lap_in(#[trigger] laps[k]) != lap) ==> (
        told_position(laps, lap) is None && !told_as_pit_lap(laps, lap)),
    decreases laps.len(),
{
    if laps.len() > 0 {
        let front = laps.drop_last();
        assert forall|k: int| 0 <= k < front.len() implies (#[trigger] front[k]) is LapCompleted by {
            assert(front[k] == laps[k]);
        }
        assert forall|i: int, k: int| 0 <= i < k < front.len() implies lap_in(#[trigger] front[i])
            < lap_in(#[trigger] front[k]) by {
            assert(front[i] == laps[i] && front[k] == laps[k]);
        }
        lemma_told_once(front, lap);
        let n = laps.len() - 1;
        assert(laps[n] is LapCompleted);
        assert forall|k: int| 0 <= k < laps.len() && lap_in(#[trigger] laps[k]) == lap implies
            told_position(laps, lap) == Some(position_in(laps[k])) by {
            if k < n {
                assert(front[k] == laps[k]);
                assert(lap_in(laps[k]) < lap_in(laps[n]));
            }
        }
        if forall|k: int| 0 <= k < laps.len() ==> lap_in(#[trigger] laps[k]) != lap {
            assert forall|k: int| 0 <= k < front.len() implies lap_in(#[trigger] front[k]) != lap by {
                assert(front[k] == laps[k]);
            }
            assert(lap_in(laps[n]) != lap);
        }
    }
}

/// Where lap numbers never fall: a lap that ends further forward than the lap before
/// it was told to, with fewer frames on pit road than make a pit lap, is told as
/// won positions, and no other lap is.
pub proof fn a_lap_further_forward_wins_positions(
    v: EngineView,
    frames: Seq<TelemetryFrame>,
    f: TelemetryFrame,
)
    requires
        is_fresh(v),
        laps_never_fall(frames),
        frames.len() > 0,
    ensures
        ({
            let laps = laps_told(v, frames);
            let q = frames.last().lap;
            wins_positions(laps, frames, f) <==> ends_a_lap(frames, f) && pit_frames_at_the_line(
                frames,
            ) < 20 && exists|k: int|
                0 <= k < laps.len() && lap_in(#[trigger] laps[k]) + 1 == q && position_in(laps[k])
                    > position_at_the_line(frames, f)
        }),
        forall|k: int|
            0 <= k < laps_told(v, frames).len() && lap_in(#[trigger] laps_told(v, frames)[k]) + 1
                == frames.last().lap ==> told_position(
                laps_told(v, frames),
                (frames.last().lap - 1) as u8,
            ) == Some(position_in(laps_told(v, frames)[k])),
{
    let laps = laps_told(v, frames);
    let q = frames.last().lap;
    laps_are_told_in_their_order(v, frames);
    lemma_told_once(laps, q);
    if q > 0 {
        let p = (q - 1) as u8;
        lemma_told_once(laps, p);
        if told_position(laps, p) is Some {
            let k = choose|k: int| 0 <= k < laps.len() && lap_in(#[trigger] laps[k]) == p;
            assert(0 <= k < laps.len() && lap_in(laps[k]) == p);
        }
    }
}

/// The engine's registry keeps every car in the slot of its own index, however many
/// frames come.
pub proof fn cars_keep_their_slots(v: EngineView, frames: Seq<TelemetryFrame>)
    requires
        is_fresh(v),
    ensures
        slots_match(replayed(v, frames).registry),
        replayed(v, frames).registry.cars.len() == SLOTS,
        replayed(v, frames).registry.last_seen.len() == SLOTS,
    decreases frames.len(),
{
    if frames.len() > 0 {
        let front = frames.drop_last();
        let f = frames.last();
        let s = replayed(v, front);
        cars_keep_their_slots(v, front);
        crate::car_registry::frames_keep_slots_matched(
            s.registry,
            f,
            s.roster,
            f.session_tick,
            s.anchor_count,
        );
        let w = crate::tally::at_the_line(s, f);
        if let Some(done) = crate::tally::lap_over(s, f) {
            let fwd = crate::engine::verdict(w, f, done, crate::gap_finder::Side::Ahead);
            if let Some(car) = fwd.threat_car {
                crate::car_registry::histories_keep_slots_matched(
                    w.registry,
                    f.player_car_idx,
                    car,
                    fwd.state,
                    crate::engine::laps_after(w, f, done).pit_laps.contains(done),
                    done,
                );
            }
        }
    }
}

/// Whether an incident of a car is going on after a row of frames.
#[verifier::opaque]
pub open spec fn incident_goes_on(v: EngineView, frames: Seq<TelemetryFrame>, c: u8) -> bool {
    replayed(v, frames).incidents.active_alerts.contains(c)
}

/// Whether a frame shows a car with an incident.
#[verifier::opaque]
pub open spec fn shows_incident(
    v: EngineView,
    frames: Seq<TelemetryFrame>,
    f: TelemetryFrame,
    c: u8,
) -> bool {
    car_at(registry_after(replayed(v, frames), f), c) matches Some(car) && has_incident(
        replayed(v, frames).incidents,
        car,
    )
}

/// Whether a frame shows a car that was seen before.
#[verifier::opaque]
pub open spec fn shows_again(
    v: EngineView,
    frames: Seq<TelemetryFrame>,
    f: TelemetryFrame,
    c: u8,
) -> bool {
    car_at(registry_after(replayed(v, frames), f), c) is Some && replayed(
        v,
        frames,
    ).incidents.last_snapshot.contains_key(c)
}

/// All that a detector tells are alerts.
proof fn lemma_all_alerts(d: DetectorView, m: Moment, reg: RegistryView)
    ensures
        told(detector_events(d, m, reg), RaceEventKind::IncidentAlert) == detector_events(
            d,
            m,
            reg,
        ),
{
    let cars = crate::car_registry::present(reg.cars);
    lemma_scan_alerts(d, m, cars);
    let events = crate::basic_incident::scanned(d, m, cars).1;
    if let Some(car) = car_at(reg, m.player_car_idx) {
        lemma_push(
            events,
            crate::basic_incident::points_alert(d, m, car),
            RaceEventKind::IncidentAlert,
        );
    }
}

proof fn lemma_scan_alerts(d: DetectorView, m: Moment, cars: Seq<CarView>)
    ensures
        told(crate::basic_incident::scanned(d, m, cars).1, RaceEventKind::IncidentAlert)
            == crate::basic_incident::scanned(d, m, cars).1,
    decreases cars.len(),
{
    if cars.len() > 0 {
        lemma_scan_alerts(d, m, cars.drop_last());
        let (rest, events) = crate::basic_incident::scanned(d, m, cars.drop_last());
        let car = cars.last();
        lemma_push(
            events,
            crate::basic_incident::alert_of(
                m,
                car.car_idx,
                rest.last_snapshot[car.car_idx],
                crate::basic_incident::snapshot_of(car),
            ),
            RaceEventKind::IncidentAlert,
        );
    }
}

/// A car's own incident is told with the frame that shows it, where none of that car
/// was going on, and once. It goes on until a frame shows the car without one.
pub proof fn an_incident_is_told_when_it_begins(
    v: EngineView,
    frames: Seq<TelemetryFrame>,
    f: TelemetryFrame,
    c: u8,
)
    requires
        is_fresh(v),
    ensures
        own_alerts(
            told(engine_events(replayed(v, frames), f), RaceEventKind::IncidentAlert),
            c,
        ).len() == if shows_incident(v, frames, f, c) && !incident_goes_on(v, frames, c) {
            1nat
        } else {
            0nat
        },
        incident_goes_on(v, frames.push(f), c) == if shows_again(v, frames, f, c) {
            shows_incident(v, frames, f, c)
        } else {
            incident_goes_on(v, frames, c)
        },
{
    reveal(incident_goes_on);
    reveal(shows_incident);
    reveal(shows_again);
    let s = replayed(v, frames);
    let m = crate::engine::moment_of(f);
    let reg = registry_after(s, f);
    cars_keep_their_slots(v, frames);
    crate::car_registry::frames_keep_slots_matched(
        s.registry,
        f,
        s.roster,
        f.session_tick,
        s.anchor_count,
    );
    a_kind_is_told_by_its_source(s, f, RaceEventKind::IncidentAlert);
    lemma_all_alerts(s.incidents, m, reg);
    crate::basic_incident::a_cars_incident_is_told_when_it_begins(s.incidents, m, reg, c);
    assert(frames.push(f).drop_last() =~= frames);
    assert(replayed(v, frames.push(f)) == engine_step(s, f));
}

/// How often a row of frames after another tells of a car's own incident.
pub open spec fn incidents_told(
    v: EngineView,
    frames: Seq<TelemetryFrame>,
    more: Seq<TelemetryFrame>,
    c: u8,
) -> nat
    decreases more.len(),
{
    if more.len() == 0 {
        0
    } else {
        incidents_told(v, frames, more.drop_last(), c) + own_alerts(
            told(
                engine_events(replayed(v, frames + more.drop_last()), more.last()),
                RaceEventKind::IncidentAlert,
            ),
            c,
        ).len()
    }
}

/// While a car's incident lasts, that is as long as no frame shows the car without
/// one, it is not told again, however many frames come.
pub proof fn an_incident_that_lasts_is_not_told_again(
    v: EngineView,
    frames: Seq<TelemetryFrame>,
    more: Seq<TelemetryFrame>,
    c: u8,
)
    requires
        is_fresh(v),
        incident_goes_on(v, frames, c),
        forall|k: int|
            0 <= k < more.len() ==> shows_incident(
                v,
                frames + more.take(k),
                #[trigger] more[k],
                c,
            ) || !shows_again(v, frames + more.take(k), more[k], c),
    ensures
        incidents_told(v, frames, more, c) == 0,
        incident_goes_on(v, frames + more, c),
    decreases more.len(),
{
    if more.len() == 0 {
        assert(frames + more =~= frames);
    } else {
        let front = more.drop_last();
        let n = more.len() - 1;
        assert forall|k: int| 0 <= k < front.len() implies shows_incident(
            v,
            frames + front.take(k),
            #[trigger] front[k],
            c,
        ) || !shows_again(v, frames + front.take(k), front[k], c) by {
            assert(front.take(k) =~= more.take(k));
            assert(front[k] == more[k]);
        }
        an_incident_that_lasts_is_not_told_again(v, frames, front, c);
        assert(more.take(n) =~= front);
        assert(more[n] == more.last());
        an_incident_is_told_when_it_begins(v, frames + front, more.last(), c);
        assert((frames + front).push(more.last()) =~= frames + more);
    }
}

/// A driver who gets into the car, that is whose session has a state behind none, is told
/// of, and so is one who gets out.
pub proof fn getting_in_and_out_is_told(
    v: EngineView,
    frames: Seq<TelemetryFrame>,
    f: TelemetryFrame,
)
    requires
        is_fresh(v),
    ensures
        told(engine_events(replayed(v, frames), f), RaceEventKind::DriverEnteredCar) == only_if(
            f.session_state != 0 && state_before(frames) == 0,
            RaceEvent::DriverEnteredCar {
                lap: f.lap,
                session_time: f.session_time,
                player_car_idx: f.player_car_idx,
            },
        ),
        told(engine_events(replayed(v, frames), f), RaceEventKind::DriverExitedCar) == only_if(
            f.session_state == 0 && state_before(frames) != 0,
            RaceEvent::DriverExitedCar {
                lap: f.lap,
                session_time: f.session_time,
                player_car_idx: f.player_car_idx,
            },
        ),
{
    let s = replayed(v, frames);
    lemma_last_frame(v, frames);
    lemma_push_if(RaceEventKind::DriverEnteredCar);
    lemma_push_if(RaceEventKind::DriverExitedCar);
    a_kind_is_told_by_its_source(s, f, RaceEventKind::DriverEnteredCar);
    a_kind_is_told_by_its_source(s, f, RaceEventKind::DriverExitedCar);
    assert(told(engine_events(s, f), RaceEventKind::DriverEnteredCar) =~= only_if(
        f.session_state != 0 && state_before(frames) == 0,
        RaceEvent::DriverEnteredCar {
            lap: f.lap,
            session_time: f.session_time,
            player_car_idx: f.player_car_idx,
        },
    ));
    assert(told(engine_events(s, f), RaceEventKind::DriverExitedCar) =~= only_if(
        f.session_state == 0 && state_before(frames) != 0,
        RaceEvent::DriverExitedCar {
            lap: f.lap,
            session_time: f.session_time,
            player_car_idx: f.player_car_idx,
        },
    ));
}

/// The player's incident count in the frame before is what the count is held against.
proof fn lemma_count_before(v: EngineView, frames: Seq<TelemetryFrame>)
    requires
        is_fresh(v),
    ensures
        replayed(v, frames).incidents.last_player_incident_count == if frames.len() == 0 {
            None
        } else {
            Some(frames.last().player_incident_count)
        },
{
    if frames.len() > 0 {
        let s = replayed(v, frames.drop_last());
        let f = frames.last();
        assert(replayed(v, frames) == engine_step(s, f));
        assert(replayed(v, frames).incidents == crate::basic_incident::detector_step(
            s.incidents,
            crate::engine::moment_of(f),
            registry_after(s, f),
        ));
    }
}

/// A frame with more incident points of the player than the frame before, in which the
/// player is on the track and was moving at five metres per second or more, has an alert
/// of the player. Where no incident of the player's own begins with it, that is one alert
/// and tells of the points that were gained. A frame without more points tells of none.
pub proof fn points_are_told_when_the_count_rises(
    v: EngineView,
    frames: Seq<TelemetryFrame>,
    f: TelemetryFrame,
)
    requires
        is_fresh(v),
    ensures
        ({
            let s = replayed(v, frames);
            let reg = registry_after(s, f);
            let player = f.player_car_idx;
            let alerts = told(engine_events(s, f), RaceEventKind::IncidentAlert);
            let rose = frames.len() > 0 && f.player_incident_count
                > frames.last().player_incident_count;
            let on_track = crate::basic_incident::on_the_track(reg, player)
                && crate::basic_incident::speed_before(s.incidents, reg, player) >= 5_000_000;
            &&& rose && on_track ==> {
                let own = own_alerts(alerts, player);
                let about = crate::basic_incident::alerts_about(alerts, player);
                &&& about.len() >= 1
                &&& own.len() == 0 ==> about.len() == 1 && crate::basic_incident::tells_of_a_rise(
                    about[0],
                    crate::engine::moment_of(f),
                    frames.last().player_incident_count,
                )
            }
            &&& !rose || !on_track ==> crate::basic_incident::rises_told(alerts).len() == 0
        }),
{
    let s = replayed(v, frames);
    let reg = registry_after(s, f);
    let m = crate::engine::moment_of(f);
    lemma_count_before(v, frames);
    a_kind_is_told_by_its_source(s, f, RaceEventKind::IncidentAlert);
    lemma_all_alerts(s.incidents, m, reg);
    let rose = frames.len() > 0 && f.player_incident_count > frames.last().player_incident_count;
    let on_track = crate::basic_incident::on_the_track(reg, f.player_car_idx)
        && crate::basic_incident::speed_before(s.incidents, reg, f.player_car_idx) >= 5_000_000;
    if rose && on_track {
        crate::basic_incident::risen_points_are_told(
            s.incidents,
            m,
            reg,
            frames.last().player_incident_count,
        );
    } else {
        crate::basic_incident::no_rise_is_told_without_one(s.incidents, m, reg);
    }
}

/// The car that is said to be overtaken is the first other one that holds the position
/// behind the player; where none is named, none holds it.
pub proof fn the_overtaken_car_holds_the_position(f: TelemetryFrame, pos: int, from: int)
    requires
        0 <= from,
    ensures
        match holder_of(f, pos, from) {
            Some(c) => {
                &&& from <= c < f.car_idx_position@.len()
                &&& f.car_idx_position@[c as int] == pos
                &&& c != f.player_car_idx
                &&& forall|i: int|
                    from <= i < c ==> (#[trigger] f.car_idx_position@[i] != pos || i
                        == f.player_car_idx)
            },
            None => forall|i: int|
                from <= i < 256 && i < f.car_idx_position@.len() ==> (
                #[trigger] f.car_idx_position@[i] != pos || i == f.player_car_idx),
        },
    decreases 256 - from,
{
    if from < 256 && from < f.car_idx_position@.len() && !(f.car_idx_position@[from] == pos && from
        != f.player_car_idx) {
        the_overtaken_car_holds_the_position(f, pos, from + 1);
    }
}

} // verus!
