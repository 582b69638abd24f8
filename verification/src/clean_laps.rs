//! Which laps are clean, and what the course of a session tells of their segments.

use vstd::prelude::*;

use crate::course::{ends_a_lap, is_fresh, races};
use crate::engine::{engine_events, engine_step, is_clean, EngineView};
use crate::gap_finder::{rivals, Side};
use crate::lap_timer::{estimate, timed};
use crate::micro_sector::{
    crossed, lap_ended, reported, streak_event, streak_events, streaks, Change, Streak,
};
use crate::pressure::sampled_all;
use crate::race_event::RaceEventKind;
use crate::replay::replayed;
use crate::session_watch::{CAUTION, YELLOW_WAVE};
use crate::tally::{
    battles_closing_and_sectors_are_told_on_the_track, lemma_push, telling_adds_up, told,
};
use crate::telemetry_frame::TelemetryFrame;

verus! {

/// Whether a frame is clean: no yellow is waved and no caution is out, the player is off
/// pit road, and not in the zone that is under yellow in the first lap or the second.
pub open spec fn clean_frame(f: TelemetryFrame) -> bool {
    &&& f.session_flags & 0x0100 == 0
    &&& f.session_flags & 0x4000 == 0
    &&& !f.on_pit_road
    &&& !(f.lap == 1 && 625_000 <= f.lap_dist_pct <= 646_000)
    &&& !(f.lap == 2 && 616_000 <= f.lap_dist_pct <= 623_000)
}

/// A frame counts as clean exactly where it is.
pub proof fn a_frame_is_clean_without_yellow_and_off_pit_road(f: TelemetryFrame)
    ensures
        is_clean(f) <==> clean_frame(f),
{
    let x = f.session_flags;
    assert(x & (0x0100u32 | 0x4000u32) != 0 <==> (x & 0x0100u32 != 0 || x & 0x4000u32 != 0))
        by (bit_vector);
    assert(YELLOW_WAVE == 0x0100u32 && CAUTION == 0x4000u32);
}

/// The racing frames of the lap that is being driven: those since the last that ended a
/// lap, which is the first of them.
pub open spec fn since_the_line(frames: Seq<TelemetryFrame>) -> Seq<TelemetryFrame>
    decreases frames.len(),
{
    if frames.len() == 0 {
        Seq::empty()
    } else {
        let front = frames.drop_last();
        let f = frames.last();
        if ends_a_lap(front, f) {
            seq![f]
        } else if races(f) {
            since_the_line(front).push(f)
        } else {
            since_the_line(front)
        }
    }
}

/// Whether all of some frames are clean.
pub open spec fn all_clean(frames: Seq<TelemetryFrame>) -> bool {
    forall|i: int| 0 <= i < frames.len() ==> clean_frame(#[trigger] frames[i])
}

/// The lap that is being driven counts as clean exactly where all of its racing frames
/// are.
pub proof fn a_lap_is_clean_while_its_frames_are(v: EngineView, frames: Seq<TelemetryFrame>)
    requires
        is_fresh(v),
    ensures
        replayed(v, frames).lap_clean <==> all_clean(since_the_line(frames)),
        replayed(v, frames).laps.prev_lap == if frames.len() == 0 {
            None
        } else {
            Some(frames.last().lap)
        },
    decreases frames.len(),
{
    if frames.len() > 0 {
        let front = frames.drop_last();
        let f = frames.last();
        a_lap_is_clean_while_its_frames_are(v, front);
        a_frame_is_clean_without_yellow_and_off_pit_road(f);
        let s = replayed(v, front);
        assert(replayed(v, frames) == engine_step(s, f));
        let r = since_the_line(front);
        if ends_a_lap(front, f) {
            assert(all_clean(seq![f]) <==> clean_frame(f)) by {
                assert(seq![f][0] == f);
            }
        } else if races(f) {
            assert(all_clean(r.push(f)) <==> all_clean(r) && clean_frame(f)) by {
                if all_clean(r.push(f)) {
                    assert forall|i: int| 0 <= i < r.len() implies clean_frame(
                        #[trigger] r[i],
                    ) by {
                        assert(r.push(f)[i] == r[i]);
                    }
                    assert(r.push(f)[r.len() as int] == f);
                }
            }
        }
    }
}

/// The events of runs of one kind are told as that kind alone.
proof fn lemma_told_runs(
    lap: u8,
    session_time: crate::fixed::Micro,
    change: Change,
    rs: Seq<Streak>,
    anchor_count: usize,
)
    ensures
        ({
            let es = streak_events(lap, session_time, change, rs, anchor_count);
            &&& es.len() == reported(rs, change).len()
            &&& told(es, RaceEventKind::MicroSectorGain).len() == if change == Change::Gain {
                es.len()
            } else {
                0
            }
            &&& told(es, RaceEventKind::MicroSectorLoss).len() == if change == Change::Loss {
                es.len()
            } else {
                0
            }
        }),
    decreases rs.len(),
{
    if rs.len() > 0 {
        let front = rs.drop_last();
        lemma_told_runs(lap, session_time, change, front, anchor_count);
        let es = streak_events(lap, session_time, change, front, anchor_count);
        let e = streak_event(lap, session_time, change, rs.last(), anchor_count);
        lemma_push(es, e, RaceEventKind::MicroSectorGain);
        lemma_push(es, e, RaceEventKind::MicroSectorLoss);
    }
}

/// Segments are told of where a clean lap ends that had another clean one before it: one
/// event for each run of segments that won time, and one for each that lost two
/// hundredths of a second or more. Any other frame tells of none.
pub proof fn segments_are_told_when_a_clean_lap_ends(
    v: EngineView,
    frames: Seq<TelemetryFrame>,
    f: TelemetryFrame,
)
    requires
        is_fresh(v),
    ensures
        ({
            let s = replayed(v, frames);
            let gains = told(engine_events(s, f), RaceEventKind::MicroSectorGain);
            let losses = told(engine_events(s, f), RaceEventKind::MicroSectorLoss);
            if ends_a_lap(frames, f) && all_clean(since_the_line(frames))
                && s.sectors.clean_laps_completed >= 1 {
                &&& gains.len() == reported(streaks(s.sectors, Change::Gain), Change::Gain).len()
                &&& losses.len() == reported(streaks(s.sectors, Change::Loss), Change::Loss).len()
            } else {
                gains.len() == 0 && losses.len() == 0
            }
        }),
{
    let s = replayed(v, frames);
    a_lap_is_clean_while_its_frames_are(v, frames);
    battles_closing_and_sectors_are_told_on_the_track(s, f, RaceEventKind::MicroSectorGain);
    battles_closing_and_sectors_are_told_on_the_track(s, f, RaceEventKind::MicroSectorLoss);
    if ends_a_lap(frames, f) {
        let w = crate::tally::at_the_line(s, f);
        assert(w.sectors == s.sectors);
        assert(w.lap_clean == s.lap_clean);
        assert(w.laps.prev_lap == s.laps.prev_lap);
        let done = frames.last().lap;
        let t = f.session_time;
        let n = s.sectors.current_lap_times.len() as usize;
        let a = streak_events(done, t, Change::Gain, streaks(s.sectors, Change::Gain), n);
        let b = streak_events(done, t, Change::Loss, streaks(s.sectors, Change::Loss), n);
        lemma_told_runs(done, t, Change::Gain, streaks(s.sectors, Change::Gain), n);
        lemma_told_runs(done, t, Change::Loss, streaks(s.sectors, Change::Loss), n);
        telling_adds_up(a, b, RaceEventKind::MicroSectorGain);
        telling_adds_up(a, b, RaceEventKind::MicroSectorLoss);
    } else {
        assert(crate::tally::lap_over(s, f) is None);
    }
}

/// A racing frame adds readings of the rivals within five positions on either side, at its
/// own lap and place and at the pace of the laps so far; they are clean where the frame
/// is. Any other frame adds none.
pub proof fn a_racing_frame_reads_its_rivals(s: EngineView, f: TelemetryFrame)
    ensures
        ({
            let after = engine_step(s, f);
            let pace = estimate(timed(s.lap_times, f.lap, f.session_time));
            let clean = clean_frame(f);
            if races(f) {
                &&& after.ahead.sampler == sampled_all(
                    s.ahead.sampler,
                    rivals(f, pace, Side::Ahead, 5, 256),
                    f.lap,
                    f.lap_dist_pct,
                    clean,
                )
                &&& after.behind.sampler == sampled_all(
                    s.behind.sampler,
                    rivals(f, pace, Side::Behind, 5, 256),
                    f.lap,
                    f.lap_dist_pct,
                    clean,
                )
            } else {
                &&& after.ahead == s.ahead
                &&& after.behind == s.behind
            }
        }),
{
    a_frame_is_clean_without_yellow_and_off_pit_road(f);
}

/// A racing frame at another anchor than the last crosses it; one at the same anchor
/// changes no segment. A frame that ends a lap first closes its segments, and crosses its
/// own anchor as the first of the next lap. Any other frame changes no segment.
pub proof fn a_racing_frame_crosses_its_anchor(
    v: EngineView,
    frames: Seq<TelemetryFrame>,
    f: TelemetryFrame,
    b: u8,
)
    requires
        is_fresh(v),
        0 < v.anchor_count <= 256,
        0 <= f.lap_dist_pct < 1_000_000,
        b < v.anchor_count,
        b * 1_000_000 <= f.lap_dist_pct * v.anchor_count < (b + 1) * 1_000_000,
    ensures
        ({
            let s = replayed(v, frames);
            let after = engine_step(s, f).sectors;
            let t = f.session_time;
            &&& !races(f) ==> after == s.sectors
            &&& races(f) && !ends_a_lap(frames, f) && s.sectors.last_anchor_bucket == Some(b)
                ==> after == s.sectors
            &&& races(f) && !ends_a_lap(frames, f) && s.sectors.last_anchor_bucket != Some(b)
                ==> after == crossed(s.sectors, t, b)
            &&& ends_a_lap(frames, f) ==> after == crossed(
                lap_ended(s.sectors, all_clean(since_the_line(frames))),
                t,
                b,
            )
        }),
{
    let s = replayed(v, frames);
    lemma_anchor_count(v, frames);
    a_lap_is_clean_while_its_frames_are(v, frames);
    crate::anchor_sampler::an_anchor_has_its_share_of_the_lap(f.lap_dist_pct, v.anchor_count);
    let c = crate::anchor_sampler::anchor_bucket(f.lap_dist_pct, v.anchor_count);
    assert(c == b);
}

proof fn lemma_anchor_count(v: EngineView, frames: Seq<TelemetryFrame>)
    ensures
        replayed(v, frames).anchor_count == v.anchor_count,
    decreases frames.len(),
{
    if frames.len() > 0 {
        lemma_anchor_count(v, frames.drop_last());
    }
}

/// A lap that ends notes the threat ahead in the player's history with that car, with the
/// state and the number of the lap, and leaves every other car as the frame showed it; a
/// lap without a threat notes nothing.
pub proof fn a_lap_notes_the_threat_ahead(s: EngineView, f: TelemetryFrame, done: u8)
    requires
        crate::tally::lap_over(s, f) == Some(done),
    ensures
        ({
            let w = crate::tally::at_the_line(s, f);
            let c = crate::engine::verdict(w, f, done, Side::Ahead);
            let pitted = crate::engine::laps_after(w, f, done).pit_laps.contains(done);
            let shown = crate::engine::registry_after(s, f);
            let after = engine_step(s, f).registry;
            &&& c.threat_car is None ==> after == shown
            &&& c.threat_car is Some ==> after == crate::car_registry::history_step(
                shown,
                f.player_car_idx,
                c.threat_car->0,
                c.state,
                pitted,
                done,
            )
        }),
{
}

} // verus!
