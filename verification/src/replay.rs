//! A recorded session, frame by frame.

use vstd::prelude::*;

use crate::engine::{engine_events, engine_step, fresh_engine, EngineView, NarrativeEngine};
use crate::fixed::Micro;
use crate::lap_timer::{LapTimer, LapTimes};
use crate::race_event::RaceEvent;
use crate::telemetry_frame::TelemetryFrame;

verus! {

/// Time that should lie between two anchors, in seconds.
pub const TARGET_CADENCE_S: i64 = 5_000_000;

/// Fewest anchors that a lap has.
pub const MIN_ANCHORS: usize = 10;

/// Anchors of a lap that takes `lap_time_s`: one per cadence, at least ten.
pub open spec fn anchors_for(lap_time_s: Micro) -> int {
    let n = lap_time_s as int / TARGET_CADENCE_S as int;
    if n < MIN_ANCHORS {
        MIN_ANCHORS as int
    } else {
        n
    }
}

/// The same, as far as it can be counted.
pub open spec fn anchors_of(lap_time_s: Micro) -> usize {
    let n = anchors_for(lap_time_s);
    if n > usize::MAX {
        usize::MAX
    } else {
        n as usize
    }
}

/// Anchors of a lap that takes `lap_time_s`.
pub fn anchor_count_for(lap_time_s: Micro) -> (r: usize)
    ensures
        r > 0,
        r == anchors_of(lap_time_s),
{
    let n: i128 = crate::fixed::quotient(lap_time_s as i128, TARGET_CADENCE_S as i128);
    if n < MIN_ANCHORS as i128 {
        MIN_ANCHORS
    } else if n > usize::MAX as i128 {
        usize::MAX
    } else {
        n as usize
    }
}

/// The lap times that a row of frames shows.
pub open spec fn times_of(frames: Seq<TelemetryFrame>) -> LapTimes
    decreases frames.len(),
{
    if frames.len() == 0 {
        LapTimes { starts: Map::empty(), times: Map::empty(), latest: None }
    } else {
        crate::lap_timer::timed(
            times_of(frames.drop_last()),
            frames.last().lap,
            frames.last().session_time,
        )
    }
}

/// Duration of the first lap, or the estimate where it was not driven to its end.
pub open spec fn first_lap_time(frames: Seq<TelemetryFrame>) -> Micro {
    match crate::lap_timer::lap_time(times_of(frames), 1) {
        Some(t) => t,
        None => crate::lap_timer::NURBURGRING_LAP_EST_S,
    }
}

/// Anchors for a recorded session, from the duration of its first lap.
pub fn compute_anchor_count(frames: &Vec<TelemetryFrame>) -> (r: usize)
    ensures
        r > 0,
        r == anchors_of(first_lap_time(frames@)),
{
    let mut timer: LapTimer = LapTimer::new();
    let mut i: usize = 0;
    while i < frames.len()
        invariant
            i <= frames@.len(),
            timer@ == times_of(frames@.take(i as int)),
        decreases frames.len() - i,
    {
        proof {
            assert(frames@.take(i + 1).drop_last() =~= frames@.take(i as int));
        }
        timer.update(frames[i].lap, frames[i].session_time);
        i = i + 1;
    }
    assert(frames@.take(i as int) =~= frames@);
    let lap_time: Micro = match timer.completed(1) {
        Some(t) => t,
        None => crate::lap_timer::NURBURGRING_LAP_EST_S,
    };
    anchor_count_for(lap_time)
}

/// The engine after a row of frames.
pub open spec fn replayed(v: EngineView, frames: Seq<TelemetryFrame>) -> EngineView
    decreases frames.len(),
{
    if frames.len() == 0 {
        v
    } else {
        engine_step(replayed(v, frames.drop_last()), frames.last())
    }
}

/// The events of a row of frames.
pub open spec fn replayed_events(v: EngineView, frames: Seq<TelemetryFrame>) -> Seq<RaceEvent>
    decreases frames.len(),
{
    if frames.len() == 0 {
        Seq::empty()
    } else {
        replayed_events(v, frames.drop_last()) + engine_events(
            replayed(v, frames.drop_last()),
            frames.last(),
        )
    }
}

/// Runs a fresh engine over a recorded session.
pub fn replay_frames(frames: &Vec<TelemetryFrame>) -> (r: Vec<RaceEvent>)
    ensures
        r@ == replayed_events(fresh_engine(anchors_of(first_lap_time(frames@))), frames@),
{
    let anchors: usize = compute_anchor_count(frames);
    let mut engine: NarrativeEngine = NarrativeEngine::new(anchors);
    let ghost start = engine@;
    let mut out: Vec<RaceEvent> = Vec::new();
    let mut i: usize = 0;
    while i < frames.len()
        invariant
            i <= frames@.len(),
            engine.wf(),
            engine@ == replayed(start, frames@.take(i as int)),
            out@ == replayed_events(start, frames@.take(i as int)),
        decreases frames.len() - i,
    {
        proof {
            assert(frames@.take(i + 1).drop_last() =~= frames@.take(i as int));
        }
        let mut events: Vec<RaceEvent> = engine.process_frame(&frames[i]);
        out.append(&mut events);
        i = i + 1;
    }
    assert(frames@.take(i as int) =~= frames@);
    out
}

/// A replay may be cut anywhere: running the first part and then the second
/// gives the events of the whole.
pub proof fn a_replay_may_be_cut(
    v: EngineView,
    first: Seq<TelemetryFrame>,
    second: Seq<TelemetryFrame>,
)
    ensures
        replayed(v, first + second) == replayed(replayed(v, first), second),
        replayed_events(v, first + second) == replayed_events(v, first) + replayed_events(
            replayed(v, first),
            second,
        ),
    decreases second.len(),
{
    let whole = first + second;
    if second.len() == 0 {
        assert(whole =~= first);
        assert(replayed_events(v, first) + Seq::<RaceEvent>::empty() =~= replayed_events(v, first));
    } else {
        assert(whole.drop_last() =~= first + second.drop_last());
        a_replay_may_be_cut(v, first, second.drop_last());
        let a = replayed_events(v, first);
        let b = replayed_events(replayed(v, first), second.drop_last());
        let c = engine_events(replayed(v, whole.drop_last()), whole.last());
        assert((a + b) + c =~= a + (b + c));
    }
}

/// A lap has one anchor for every five whole seconds that it takes, and ten at least.
pub proof fn one_anchor_every_five_seconds(lap_time_s: Micro)
    requires
        lap_time_s <= 5_000_000_000_000_000,
    ensures
        ({
            let n = anchors_of(lap_time_s);
            &&& n >= 10
            &&& lap_time_s >= 55_000_000 ==> n * 5_000_000 <= lap_time_s < (n + 1) * 5_000_000
            &&& lap_time_s < 55_000_000 ==> n == 10
        }),
{
}

/// The time of the first of the frames that is of a lap.
pub open spec fn first_seen(frames: Seq<TelemetryFrame>, lap: u8) -> Option<Micro>
    decreases frames.len(),
{
    if frames.len() == 0 {
        None
    } else {
        match first_seen(frames.drop_last(), lap) {
            Some(t) => Some(t),
            None => if frames.last().lap == lap {
                Some(frames.last().session_time)
            } else {
                None
            },
        }
    }
}

proof fn lemma_starts(frames: Seq<TelemetryFrame>, lap: u8)
    ensures
        times_of(frames).starts.contains_key(lap) <==> first_seen(frames, lap) is Some,
        first_seen(frames, lap) is Some ==> times_of(frames).starts[lap] == first_seen(
            frames,
            lap,
        )->0,
    decreases frames.len(),
{
    if frames.len() > 0 {
        lemma_starts(frames.drop_last(), lap);
        lemma_starts(frames.drop_last(), frames.last().lap);
    }
}

/// A lap is timed by the first frame of the lap behind it: it took from its own first
/// frame to that one, and that time is the estimate from then on. No other frame times a
/// lap.
pub proof fn laps_are_timed_by_their_first_frames(
    frames: Seq<TelemetryFrame>,
    f: TelemetryFrame,
    lap: u8,
)
    ensures
        ({
            let before = times_of(frames);
            let after = times_of(frames.push(f));
            let ends = f.lap == lap + 1 && first_seen(frames, f.lap) is None && first_seen(
                frames,
                lap,
            ) is Some;
            if ends {
                let took = crate::fixed::clamped(f.session_time - first_seen(frames, lap)->0);
                &&& crate::lap_timer::lap_time(after, lap) == Some(took)
                &&& crate::lap_timer::estimate(after) == took
            } else {
                crate::lap_timer::lap_time(after, lap) == crate::lap_timer::lap_time(before, lap)
            }
        }),
{
    assert(frames.push(f).drop_last() =~= frames);
    lemma_starts(frames, lap);
    lemma_starts(frames, f.lap);
    if f.lap > 0 {
        lemma_starts(frames, (f.lap - 1) as u8);
    }
}

/// A session whose first lap was not driven to its end has the anchors of a lap of nine
/// minutes.
pub proof fn an_unfinished_first_lap_takes_nine_minutes(frames: Seq<TelemetryFrame>)
    ensures
        crate::lap_timer::lap_time(times_of(frames), 1) is None ==> first_lap_time(frames) == 540
            * 1_000_000,
        crate::lap_timer::lap_time(times_of(frames), 1) is Some ==> Some(first_lap_time(frames))
            == crate::lap_timer::lap_time(times_of(frames), 1),
{
}

} // verus!
