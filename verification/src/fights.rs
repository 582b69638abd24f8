//! What the course of a session tells of battles: when one begins and when it ends,
//! given all the frames before.

use vstd::prelude::*;

use crate::battle_state::BattleState;
use crate::car_registry::{history_with, RegistryView};
use crate::course::{
    ends_a_lap, is_fresh, laps_told, lemma_at_the_line, lemma_book, only_if,
    pit_frames_at_the_line, races, racing_frames, told_as_pit_lap,
};
use crate::engagement::{
    begins, broken_event, ends, engaged_event, engagement_events, engagement_step, Engagement,
};
use crate::engine::{
    engine_events, engine_step, gap_events, nearest, prior_with, registry_after, watch_step,
    EngineView,
};
use crate::fixed::Micro;
use crate::gap_finder::{gap_of, is_rival, rivals, rivals_are_ranked_and_complete, Side};
use crate::lap_timer::estimate;
use crate::pressure::{assessed, closing_event, PressureView};
use crate::race_event::{RaceEvent, RaceEventKind};
use crate::rank::Numbered;
use crate::replay::{replayed, times_of};
use crate::tally::{
    battles_closing_and_sectors_are_told_on_the_track, lemma_push, telling_adds_up, told,
};
use crate::telemetry_frame::TelemetryFrame;

verus! {

/// The nearest rival on one side in the last of the racing frames `r`: of the cars within
/// five positions, at the pace of the laps that the frames show.
pub open spec fn near(r: Seq<TelemetryFrame>, side: Side) -> Option<Numbered> {
    nearest(rivals(r.last(), estimate(times_of(r)), side, 5, 256))
}

/// Whether that rival is less than a second and a half away.
pub open spec fn is_near(r: Seq<TelemetryFrame>, side: Side) -> bool {
    near(r, side) matches Some(x) && x.1 < 1_500_000
}

/// In how many racing frames on end, up to the last, a rival was that near.
pub open spec fn near_frames(r: Seq<TelemetryFrame>, side: Side) -> nat
    decreases r.len(),
{
    if r.len() > 0 && is_near(r, side) {
        near_frames(r.drop_last(), side) + 1
    } else {
        0
    }
}

/// Those of the battles told to begin whose car is on that side of the player.
pub open spec fn on_side(events: Seq<RaceEvent>, f: TelemetryFrame, side: Side) -> Seq<RaceEvent>
    decreases events.len(),
{
    if events.len() == 0 {
        Seq::empty()
    } else {
        let rest = on_side(events.drop_last(), f, side);
        match events.last() {
            RaceEvent::BattleEngaged { car_race_position, .. } => if match side {
                Side::Ahead => car_race_position < f.player_car_position,
                Side::Behind => car_race_position > f.player_car_position,
            } {
                rest.push(events.last())
            } else {
                rest
            },
            _ => rest,
        }
    }
}

/// The battles that a frame after `frames` tells to begin on that side.
pub open spec fn begun(
    v: EngineView,
    frames: Seq<TelemetryFrame>,
    f: TelemetryFrame,
    side: Side,
) -> Seq<RaceEvent> {
    on_side(told(engine_events(replayed(v, frames), f), RaceEventKind::BattleEngaged), f, side)
}

/// When a battle on that side was last told to begin.
pub open spec fn last_begun(v: EngineView, frames: Seq<TelemetryFrame>, side: Side) -> Option<
    Micro,
>
    decreases frames.len(),
{
    if frames.len() == 0 {
        None
    } else if begun(v, frames.drop_last(), frames.last(), side).len() > 0 {
        Some(frames.last().session_time)
    } else {
        last_begun(v, frames.drop_last(), side)
    }
}

/// The car that a battle is told to begin with.
pub open spec fn opponent_in(e: RaceEvent) -> u8 {
    match e {
        RaceEvent::BattleEngaged { opponent_car_idx, .. } => opponent_car_idx,
        _ => 0,
    }
}

/// The car of the battle that is on: the last one that began on that side, as long as a
/// rival was near in every racing frame since.
pub open spec fn battle_on(v: EngineView, frames: Seq<TelemetryFrame>, side: Side) -> Option<u8>
    decreases frames.len(),
{
    if frames.len() == 0 {
        None
    } else {
        let before = battle_on(v, frames.drop_last(), side);
        let here = begun(v, frames.drop_last(), frames.last(), side);
        if here.len() > 0 {
            Some(opponent_in(here.last()))
        } else if races(frames.last()) && !is_near(racing_frames(frames), side) {
            None
        } else {
            before
        }
    }
}

/// What the engine keeps of a side.
pub open spec fn side_of(v: EngineView, side: Side) -> Engagement {
    match side {
        Side::Ahead => v.fight_ahead,
        Side::Behind => v.fight_behind,
    }
}

/// The nearest rival is one: another car within five positions on that side, no more than
/// five seconds away, and no other such car is nearer. Where there is none, no car is
/// such.
proof fn lemma_near(r: Seq<TelemetryFrame>, side: Side)
    ensures
        match near(r, side) {
            Some(x) => {
                &&& is_rival(r.last(), estimate(times_of(r)), side, 5, x.0 as int)
                &&& x.1 == gap_of(
                    r.last().lap_dist_pct,
                    r.last().car_idx_lap_dist_pct@[x.0 as int],
                    side,
                    estimate(times_of(r)),
                )
                &&& forall|i: int|
                    0 <= i < 256 && #[trigger] is_rival(
                        r.last(),
                        estimate(times_of(r)),
                        side,
                        5,
                        i,
                    ) ==> x.1 <= gap_of(
                        r.last().lap_dist_pct,
                        r.last().car_idx_lap_dist_pct@[i],
                        side,
                        estimate(times_of(r)),
                    )
            },
            None => forall|i: int|
                0 <= i < 256 ==> !#[trigger] is_rival(
                    r.last(),
                    estimate(times_of(r)),
                    side,
                    5,
                    i,
                ),
        },
{
    broadcast use vstd::seq_lib::group_to_multiset_ensures;

    let f = r.last();
    let t = estimate(times_of(r));
    let rs = rivals(f, t, side, 5, 256);
    rivals_are_ranked_and_complete(f, t, side, 5, 256);
    if rs.len() > 0 {
        assert(rs.contains(rs[0]));
        assert(rs.to_multiset().contains(rs[0]));
    }
    assert forall|i: int| 0 <= i < 256 && #[trigger] is_rival(f, t, side, 5, i) implies rs.len() > 0
        && rs[0].1 <= gap_of(f.lap_dist_pct, f.car_idx_lap_dist_pct@[i], side, t) by {
        let y = (i as u8, gap_of(f.lap_dist_pct, f.car_idx_lap_dist_pct@[i], side, t));
        assert(rs.to_multiset().contains(y));
        assert(rs.contains(y));
        let k = choose|k: int| 0 <= k < rs.len() && rs[k] == y;
        if k > 0 {
            assert(rs[0].1 <= rs[k].1);
        }
    }
}

/// What one side tells of beginnings and of ends.
proof fn lemma_one_side(
    e: Engagement,
    f: TelemetryFrame,
    x: Option<Numbered>,
    prior: crate::engagement::Prior,
)
    ensures
        told(engagement_events(e, f, x, prior), RaceEventKind::BattleEngaged) == only_if(
            begins(e, f.session_time, x),
            engaged_event(f, x->0, prior),
        ),
        told(engagement_events(e, f, x, prior), RaceEventKind::BattleBroken) == only_if(
            ends(e, f.session_time, x),
            broken_event(e, f, x),
        ),
{
    let none = Seq::<RaceEvent>::empty();
    let end = broken_event(e, f, x);
    let start = engaged_event(f, x->0, prior);
    assert(none.push(end) =~= seq![end]);
    assert(none.push(start) =~= seq![start]);
    lemma_push(none, end, RaceEventKind::BattleEngaged);
    lemma_push(none, end, RaceEventKind::BattleBroken);
    lemma_push(none, start, RaceEventKind::BattleEngaged);
    lemma_push(none, start, RaceEventKind::BattleBroken);
    lemma_push(seq![end], start, RaceEventKind::BattleEngaged);
    lemma_push(seq![end], start, RaceEventKind::BattleBroken);
}

/// The history with the nearest rival that an event of a frame tells.
pub open spec fn prior_in(s: EngineView, f: TelemetryFrame, x: Option<Numbered>)
    -> crate::engagement::Prior {
    prior_with(watch_step(s, f).registry, f.player_car_idx, x)
}

/// The beginning that a frame tells on a side, where it tells one.
pub open spec fn beginning(
    s: EngineView,
    r: Seq<TelemetryFrame>,
    side: Side,
) -> Seq<RaceEvent> {
    let f = r.last();
    let x = near(r, side);
    only_if(
        begins(side_of(s, side), f.session_time, x),
        engaged_event(f, x->0, prior_in(s, f, x)),
    )
}

/// The end that a frame tells on a side, where it tells one.
#[verifier::opaque]
pub open spec fn ending(s: EngineView, r: Seq<TelemetryFrame>, side: Side) -> Seq<RaceEvent> {
    let f = r.last();
    let x = near(r, side);
    only_if(
        ends(side_of(s, side), f.session_time, x),
        broken_event(side_of(s, side), f, x),
    )
}

/// What a racing frame tells of battles, and what it leaves of the sides.
proof fn lemma_frame(s: EngineView, before: Seq<TelemetryFrame>, f: TelemetryFrame)
    requires
        races(f),
        s.lap_times == times_of(before),
    ensures
        ({
            let r = before.push(f);
            let t = f.session_time;
            &&& told(engine_events(s, f), RaceEventKind::BattleEngaged) == beginning(
                s,
                r,
                Side::Ahead,
            ) + beginning(s, r, Side::Behind)
            &&& told(engine_events(s, f), RaceEventKind::BattleBroken) == ending(
                s,
                r,
                Side::Ahead,
            ) + ending(s, r, Side::Behind)
            &&& engine_step(s, f).fight_ahead == engagement_step(
                s.fight_ahead,
                t,
                near(r, Side::Ahead),
            )
            &&& engine_step(s, f).fight_behind == engagement_step(
                s.fight_behind,
                t,
                near(r, Side::Behind),
            )
        }),
{
    reveal(ending);
    let r = before.push(f);
    let u = watch_step(s, f);
    assert(r.drop_last() =~= before);
    assert(times_of(r) == crate::lap_timer::timed(times_of(before), f.lap, f.session_time));
    let a = near(r, Side::Ahead);
    let b = near(r, Side::Behind);
    assert(a == nearest(crate::engine::rivals_of(u, f, Side::Ahead)));
    assert(b == nearest(crate::engine::rivals_of(u, f, Side::Behind)));
    let ea = engagement_events(s.fight_ahead, f, a, prior_in(s, f, a));
    let eb = engagement_events(s.fight_behind, f, b, prior_in(s, f, b));
    assert(gap_events(u, f) == ea + eb);
    battles_closing_and_sectors_are_told_on_the_track(s, f, RaceEventKind::BattleEngaged);
    battles_closing_and_sectors_are_told_on_the_track(s, f, RaceEventKind::BattleBroken);
    telling_adds_up(ea, eb, RaceEventKind::BattleEngaged);
    telling_adds_up(ea, eb, RaceEventKind::BattleBroken);
    lemma_one_side(s.fight_ahead, f, a, prior_in(s, f, a));
    lemma_one_side(s.fight_behind, f, b, prior_in(s, f, b));
}

/// Each beginning is found on its own side.
proof fn lemma_sides(s: EngineView, r: Seq<TelemetryFrame>)
    requires
        r.len() > 0,
    ensures
        on_side(
            beginning(s, r, Side::Ahead) + beginning(s, r, Side::Behind),
            r.last(),
            Side::Ahead,
        ) == beginning(s, r, Side::Ahead),
        on_side(
            beginning(s, r, Side::Ahead) + beginning(s, r, Side::Behind),
            r.last(),
            Side::Behind,
        ) == beginning(s, r, Side::Behind),
{
    let f = r.last();
    let a = beginning(s, r, Side::Ahead);
    let b = beginning(s, r, Side::Behind);
    let none = Seq::<RaceEvent>::empty();
    lemma_near(r, Side::Ahead);
    lemma_near(r, Side::Behind);
    reveal_with_fuel(on_side, 3);
    if a.len() > 0 && b.len() > 0 {
        assert(a + b =~= seq![a[0], b[0]]);
        assert((a + b).drop_last() =~= a);
        assert(a.drop_last() =~= none);
        assert(on_side(a + b, f, Side::Ahead) =~= a);
        assert(on_side(a + b, f, Side::Behind) =~= b);
    } else if a.len() > 0 {
        assert(a + b =~= a);
        assert(a.drop_last() =~= none);
        assert(on_side(a, f, Side::Ahead) =~= a);
        assert(on_side(a, f, Side::Behind) =~= b);
    } else if b.len() > 0 {
        assert(a + b =~= b);
        assert(b.drop_last() =~= none);
        assert(on_side(b, f, Side::Ahead) =~= a);
        assert(on_side(b, f, Side::Behind) =~= b);
    } else {
        assert(a + b =~= none);
    }
}

/// A frame in which the player does not race tells of no battle, and changes none.
proof fn lemma_idle_frame(s: EngineView, f: TelemetryFrame)
    requires
        !races(f),
    ensures
        told(engine_events(s, f), RaceEventKind::BattleEngaged).len() == 0,
        told(engine_events(s, f), RaceEventKind::BattleBroken).len() == 0,
        engine_step(s, f).fight_ahead == s.fight_ahead,
        engine_step(s, f).fight_behind == s.fight_behind,
{
    battles_closing_and_sectors_are_told_on_the_track(s, f, RaceEventKind::BattleEngaged);
    battles_closing_and_sectors_are_told_on_the_track(s, f, RaceEventKind::BattleBroken);
}

/// As many as a side counts.
pub open spec fn as_counted(n: nat) -> u32 {
    if n > u32::MAX {
        u32::MAX
    } else {
        n as u32
    }
}

/// What the engine keeps of a side is what the frames told.
proof fn lemma_sides_kept(v: EngineView, frames: Seq<TelemetryFrame>, side: Side)
    requires
        is_fresh(v),
    ensures
        replayed(v, frames).lap_times == times_of(racing_frames(frames)),
        ({
            let e = side_of(replayed(v, frames), side);
            &&& e.consecutive_close == as_counted(near_frames(racing_frames(frames), side))
            &&& e.last_close_t == last_begun(v, frames, side)
            &&& e.tracking_car == battle_on(v, frames, side)
        }),
    decreases frames.len(),
{
    if frames.len() > 0 {
        let front = frames.drop_last();
        let f = frames.last();
        lemma_sides_kept(v, front, side);
        let s = replayed(v, front);
        let before = racing_frames(front);
        assert(replayed(v, frames) == engine_step(s, f));
        if races(f) {
            let r = before.push(f);
            assert(r.drop_last() =~= before);
            assert(times_of(r) == crate::lap_timer::timed(times_of(before), f.lap, f.session_time));
            lemma_frame(s, before, f);
            lemma_sides(s, r);
            assert(begun(v, front, f, side) == beginning(s, r, side));
        } else {
            lemma_idle_frame(s, f);
        }
    }
}

/// Whether an event tells that a battle with `x` begins in a frame.
pub open spec fn tells_of_a_beginning(e: RaceEvent, f: TelemetryFrame, x: Numbered) -> bool {
    match e {
        RaceEvent::BattleEngaged {
            lap,
            session_time,
            player_car_idx,
            opponent_car_idx,
            gap_s,
            car_race_position,
            engagement_started_at_session_time_s,
            ..
        } => {
            &&& lap == f.lap && session_time == f.session_time
            &&& player_car_idx == f.player_car_idx
            &&& opponent_car_idx == x.0
            &&& gap_s == x.1
            &&& car_race_position == f.car_idx_position@[x.0 as int]
            &&& engagement_started_at_session_time_s == f.session_time
        },
        _ => false,
    }
}

/// Whether an event tells the past with a rival: skirmishes and attack time of the
/// player's history with it, none where there is no history.
pub open spec fn tells_of_the_past(
    e: RaceEvent,
    reg: RegistryView,
    f: TelemetryFrame,
    car: u8,
) -> bool {
    match e {
        RaceEvent::BattleEngaged { prior_skirmishes, prior_attack_time_s, .. } => {
            match history_with(reg, f.player_car_idx, car) {
                Some(h) => prior_skirmishes == h.skirmish_count && prior_attack_time_s
                    == h.time_in_attack_s,
                None => prior_skirmishes == 0 && prior_attack_time_s == 0,
            }
        },
        _ => false,
    }
}

/// A battle is told to begin on a side exactly where the nearest rival there has been
/// less than a second and a half away for five racing frames on end, the last battle on
/// that side began more than half a minute before, and none with this rival is on. It is
/// told once, and names the rival and its gap.
pub proof fn a_battle_begins_after_five_near_frames(
    v: EngineView,
    frames: Seq<TelemetryFrame>,
    f: TelemetryFrame,
    side: Side,
)
    requires
        is_fresh(v),
    ensures
        ({
            let r = racing_frames(frames).push(f);
            let here = begun(v, frames, f, side);
            let x = near(r, side);
            let due = races(f) && near_frames(r, side) >= 5 && (last_begun(
                v,
                frames,
                side,
            ) matches Some(last) ==> f.session_time - last > 30_000_000) && battle_on(
                v,
                frames,
                side,
            ) != Some((x->0).0);
            &&& due ==> here.len() == 1 && x is Some && tells_of_a_beginning(here[0], f, x->0)
                && tells_of_the_past(here[0], registry_after(replayed(v, frames), f), f, (x->0).0)
            &&& !due ==> here.len() == 0
        }),
{
    let s = replayed(v, frames);
    let before = racing_frames(frames);
    let r = before.push(f);
    lemma_sides_kept(v, frames, side);
    if races(f) {
        assert(r.drop_last() =~= before);
        assert(r.last() == f);
        lemma_frame(s, before, f);
        lemma_sides(s, r);
        lemma_near(r, side);
        assert(begun(v, frames, f, side) == beginning(s, r, side));
    } else {
        lemma_idle_frame(s, f);
    }
}

/// Five frames on end in which the nearest rival is less than a second and a half away
/// count as five.
proof fn lemma_five_near(r: Seq<TelemetryFrame>, side: Side, n: nat)
    requires
        n <= r.len(),
        forall|k: int| 0 <= k < n ==> is_near(#[trigger] r.take(r.len() - k), side),
    ensures
        near_frames(r, side) >= n,
    decreases n,
{
    if n > 0 {
        assert(r.take(r.len() - 0) =~= r);
        let front = r.drop_last();
        assert forall|k: int| 0 <= k < n - 1 implies is_near(
            #[trigger] front.take(front.len() - k),
            side,
        ) by {
            assert(front.take(front.len() - k) =~= r.take(r.len() - (k + 1)));
        }
        lemma_five_near(front, side, (n - 1) as nat);
    }
}

/// A rival that is the nearest on its side, less than a second and a half away, in each
/// of the last five racing frames is told to be fought in the last of them, with its gap,
/// where no battle with it is on and none began on that side in the last half minute.
pub proof fn five_near_frames_make_a_battle(
    v: EngineView,
    frames: Seq<TelemetryFrame>,
    f: TelemetryFrame,
    side: Side,
    car: u8,
)
    requires
        is_fresh(v),
        races(f),
        racing_frames(frames).len() >= 4,
        ({
            let r = racing_frames(frames).push(f);
            forall|k: int|
                0 <= k < 5 ==> (near(#[trigger] r.take(r.len() - k), side) matches Some(x) && x.0
                    == car && 0 <= x.1 < 1_500_000)
        }),
        battle_on(v, frames, side) != Some(car),
        last_begun(v, frames, side) matches Some(last) ==> f.session_time - last > 30_000_000,
    ensures
        ({
            let here = begun(v, frames, f, side);
            let gap = (near(racing_frames(frames).push(f), side)->0).1;
            &&& here.len() == 1
            &&& tells_of_a_beginning(here[0], f, (car, gap))
            &&& told(
                engine_events(replayed(v, frames), f),
                RaceEventKind::BattleEngaged,
            ).contains(here[0])
        }),
{
    let r = racing_frames(frames).push(f);
    assert forall|k: int| 0 <= k < 5 implies is_near(#[trigger] r.take(r.len() - k), side) by {}
    lemma_five_near(r, side, 5);
    assert(r.take(r.len() - 0) =~= r);
    a_battle_begins_after_five_near_frames(v, frames, f, side);
    lemma_sides_kept(v, frames, side);
    let s = replayed(v, frames);
    lemma_frame(s, racing_frames(frames), f);
    lemma_sides(s, r);
    let a = beginning(s, r, Side::Ahead);
    let b = beginning(s, r, Side::Behind);
    let here = begun(v, frames, f, side);
    assert(here == beginning(s, r, side));
    match side {
        Side::Ahead => {
            assert((a + b)[0] == here[0]);
        },
        Side::Behind => {
            assert((a + b)[a.len() as int] == here[0]);
        },
    }
}

/// Whether the battle on a side ends with a frame: one is on, and the nearest rival there
/// is a second and a half away or more, there is none, or another battle begins.
pub open spec fn battle_ends(
    v: EngineView,
    frames: Seq<TelemetryFrame>,
    f: TelemetryFrame,
    side: Side,
) -> bool {
    let x = near(racing_frames(frames).push(f), side);
    races(f) && battle_on(v, frames, side) is Some && (x is None || (x->0).1 >= 1_500_000
        || begun(v, frames, f, side).len() > 0)
}

/// Whether an event tells that the battle on a side ends: with whom, since when, and at
/// what gap where the car is still the nearest.
pub open spec fn tells_of_an_end(
    e: RaceEvent,
    v: EngineView,
    frames: Seq<TelemetryFrame>,
    f: TelemetryFrame,
    side: Side,
) -> bool {
    match e {
        RaceEvent::BattleBroken {
            lap,
            session_time,
            player_car_idx,
            opponent_car_idx,
            final_gap_sec,
            car_race_position,
            engagement_started_at_session_time_s,
        } => {
            let x = near(racing_frames(frames).push(f), side);
            &&& lap == f.lap && session_time == f.session_time
            &&& player_car_idx == f.player_car_idx
            &&& battle_on(v, frames, side) == Some(opponent_car_idx)
            &&& opponent_car_idx < f.car_idx_position@.len() ==> car_race_position
                == f.car_idx_position@[opponent_car_idx as int]
            &&& x is Some && (x->0).0 == opponent_car_idx ==> final_gap_sec == Some((x->0).1)
            &&& x is None || (x->0).0 != opponent_car_idx ==> final_gap_sec is None
            &&& last_begun(v, frames, side) is Some ==> engagement_started_at_session_time_s
                == last_begun(v, frames, side)->0
        },
        _ => false,
    }
}

/// The end that a side tells is that of the battle that is on.
proof fn lemma_ending(v: EngineView, frames: Seq<TelemetryFrame>, f: TelemetryFrame, side: Side)
    requires
        is_fresh(v),
        races(f),
    ensures
        ({
            let e = ending(replayed(v, frames), racing_frames(frames).push(f), side);
            let over = battle_ends(v, frames, f, side);
            &&& e.len() == if over {
                1nat
            } else {
                0nat
            }
            &&& over ==> tells_of_an_end(e[0], v, frames, f, side)
        }),
{
    reveal(ending);
    let s = replayed(v, frames);
    let before = racing_frames(frames);
    let r = before.push(f);
    lemma_sides_kept(v, frames, side);
    lemma_frame(s, before, f);
    lemma_sides(s, r);
    assert(r.last() == f);
    assert(begun(v, frames, f, side) == beginning(s, r, side));
}

/// A battle is told to be broken exactly where it ends: the one ahead first, then the one
/// behind.
pub proof fn a_battle_is_broken_when_the_rival_is_not_near(
    v: EngineView,
    frames: Seq<TelemetryFrame>,
    f: TelemetryFrame,
)
    requires
        is_fresh(v),
    ensures
        ({
            let broken = told(
                engine_events(replayed(v, frames), f),
                RaceEventKind::BattleBroken,
            );
            let a = battle_ends(v, frames, f, Side::Ahead);
            let b = battle_ends(v, frames, f, Side::Behind);
            &&& !a && !b ==> broken.len() == 0
            &&& a ==> broken.len() > 0 && tells_of_an_end(broken[0], v, frames, f, Side::Ahead)
            &&& b ==> broken.len() > 0 && tells_of_an_end(broken.last(), v, frames, f, Side::Behind)
            &&& broken.len() == if a && b {
                2nat
            } else if a || b {
                1nat
            } else {
                0nat
            }
        }),
{
    let s = replayed(v, frames);
    let before = racing_frames(frames);
    let r = before.push(f);
    lemma_sides_kept(v, frames, Side::Ahead);
    if races(f) {
        lemma_frame(s, before, f);
        lemma_ending(v, frames, f, Side::Ahead);
        lemma_ending(v, frames, f, Side::Behind);
        let a = ending(s, r, Side::Ahead);
        let b = ending(s, r, Side::Behind);
        assert(a.len() > 0 ==> (a + b)[0] == a[0]);
        assert(b.len() > 0 ==> (a + b).last() == b[0]);
    } else {
        lemma_idle_frame(s, f);
    }
}

/// No battle is broken while a rival is near: as long as the nearest rival on a side is
/// less than a second and a half away and no battle begins there, the one that is on goes
/// on.
pub proof fn a_battle_goes_on_while_a_rival_is_near(
    v: EngineView,
    frames: Seq<TelemetryFrame>,
    f: TelemetryFrame,
    side: Side,
)
    requires
        is_fresh(v),
        races(f),
        near(racing_frames(frames).push(f), side) matches Some(x) && x.1 < 1_500_000,
        begun(v, frames, f, side).len() == 0,
    ensures
        !battle_ends(v, frames, f, side),
        battle_on(v, frames.push(f), side) == battle_on(v, frames, side),
{
    assert(frames.push(f).drop_last() =~= frames);
}

/// Whether the lap that a frame ends went through the pits: twenty of its racing frames or
/// more were on pit road, or it was told as such a lap before.
pub open spec fn through_the_pits(v: EngineView, frames: Seq<TelemetryFrame>) -> bool {
    pit_frames_at_the_line(frames) >= 20 || told_as_pit_lap(
        laps_told(v, frames),
        frames.last().lap,
    )
}

/// The readings of a direction when a frame has been taken in.
pub open spec fn pressure_of(v: EngineView, f: TelemetryFrame, side: Side) -> PressureView {
    match side {
        Side::Ahead => crate::tally::at_the_line(v, f).ahead,
        Side::Behind => crate::tally::at_the_line(v, f).behind,
    }
}

/// What one direction tells of closing cars at the end of a lap.
pub open spec fn closing_in(
    v: EngineView,
    frames: Seq<TelemetryFrame>,
    f: TelemetryFrame,
    side: Side,
) -> Seq<RaceEvent> {
    let s = replayed(v, frames);
    let p = pressure_of(s, f, side);
    let done = frames.last().lap;
    let c = assessed(p, done, through_the_pits(v, frames));
    only_if(
        c.state != p.state && (c.state == BattleState::Push || c.state
            == BattleState::AttackSetup),
        closing_event(
            f,
            done,
            c,
            crate::car_registry::prior_of(
                registry_after(s, f),
                f.player_car_idx,
                c.threat_car->0,
            ),
        ),
    )
}

/// A car is told to close in at the end of a lap, ahead first and then behind, exactly
/// where the readings up to that lap make its direction a push or an attack that it was
/// not before; a lap through the pits tells of none, and no other frame does.
pub proof fn a_closing_car_is_told_at_the_end_of_a_lap(
    v: EngineView,
    frames: Seq<TelemetryFrame>,
    f: TelemetryFrame,
)
    requires
        is_fresh(v),
    ensures
        told(engine_events(replayed(v, frames), f), RaceEventKind::BattleClosing) == if ends_a_lap(
            frames,
            f,
        ) {
            closing_in(v, frames, f, Side::Ahead) + closing_in(v, frames, f, Side::Behind)
        } else {
            Seq::empty()
        },
        ends_a_lap(frames, f) && through_the_pits(v, frames) ==> told(
            engine_events(replayed(v, frames), f),
            RaceEventKind::BattleClosing,
        ).len() == 0,
{
    let s = replayed(v, frames);
    let kind = RaceEventKind::BattleClosing;
    battles_closing_and_sectors_are_told_on_the_track(s, f, kind);
    lemma_at_the_line(v, frames, f);
    lemma_book(v, frames);
    if ends_a_lap(frames, f) {
        let w = crate::tally::at_the_line(s, f);
        let done = frames.last().lap;
        let pitted = through_the_pits(v, frames);
        assert(s.laps.pit_laps.contains(done) == told_as_pit_lap(laps_told(v, frames), done));
        assert(crate::engine::laps_after(w, f, done).pit_laps.contains(done) == pitted);
        assert(w.registry == registry_after(s, f));
        lemma_side_closing(v, frames, f, Side::Ahead);
        lemma_side_closing(v, frames, f, Side::Behind);
        if pitted {
            assert(closing_in(v, frames, f, Side::Ahead) =~= Seq::empty());
            assert(closing_in(v, frames, f, Side::Behind) =~= Seq::empty());
        }
    }
}

proof fn lemma_side_closing(
    v: EngineView,
    frames: Seq<TelemetryFrame>,
    f: TelemetryFrame,
    side: Side,
)
    requires
        ({
            let s = replayed(v, frames);
            let w = crate::tally::at_the_line(s, f);
            let done = frames.last().lap;
            &&& crate::engine::laps_after(w, f, done).pit_laps.contains(done) == through_the_pits(
                v,
                frames,
            )
            &&& w.registry == registry_after(s, f)
        }),
    ensures
        told(
            crate::engine::pressure_events(
                crate::tally::at_the_line(replayed(v, frames), f),
                f,
                frames.last().lap,
                side,
            ),
            RaceEventKind::BattleClosing,
        ) == closing_in(v, frames, f, side),
{
    let s = replayed(v, frames);
    let w = crate::tally::at_the_line(s, f);
    let done = frames.last().lap;
    let p = pressure_of(s, f, side);
    let pitted = through_the_pits(v, frames);
    let c = assessed(p, done, pitted);
    assert(c == crate::engine::verdict(w, f, done, side));
    let prior = crate::car_registry::prior_of(w.registry, f.player_car_idx, c.threat_car->0);
    crate::pressure::closing_in_is_a_new_push_or_attack(p, done, pitted, f, prior);
    let none = Seq::<RaceEvent>::empty();
    let e = closing_event(f, done, c, prior);
    lemma_push(none, e, RaceEventKind::BattleClosing);
    assert(none.push(e) =~= seq![e]);
}

} // verus!
