//! Who is near, and how far away in time.

use vstd::prelude::*;

use crate::fixed::{clamp, quotient, Micro, ONE};
use crate::rank::{insert_in_rank, Numbered};
use crate::telemetry_frame::TelemetryFrame;

verus! {

/// A gap beyond this is no battle, in seconds.
pub const MAX_BATTLE_GAP_S: i64 = 5_000_000;

/// Lap distances below this belong to inactive slots.
pub const INACTIVE_LAP_DIST: i64 = -500_000;

/// A side of the player in race order.
#[derive(Debug, Clone, Copy, PartialEq, Eq, Structural)]
pub enum Side {
    Ahead,
    Behind,
}

/// Whether the frame has car `i` on the track: it holds a race position and a
/// place on the lap.
pub open spec fn active(frame: TelemetryFrame, i: int) -> bool {
    0 <= i < frame.car_idx_position@.len() && i < frame.car_idx_lap_dist_pct@.len()
        && frame.car_idx_position@[i] > 0 && frame.car_idx_lap_dist_pct@[i] > INACTIVE_LAP_DIST
}

/// Whether position `pos` is on that side of the player, by at most `positions`.
pub open spec fn in_scan(player_pos: u8, pos: u8, side: Side, positions: u8) -> bool {
    match side {
        Side::Ahead => pos < player_pos && player_pos - pos <= positions,
        Side::Behind => pos > player_pos && pos - player_pos <= positions,
    }
}

/// How far of a lap the other car is away on that side: the line may lie between.
pub open spec fn lap_fraction(player: Micro, other: Micro, side: Side) -> int {
    let d = match side {
        Side::Ahead => other - player,
        Side::Behind => player - other,
    };
    if d < 0 {
        d + ONE
    } else {
        d
    }
}

/// The gap in seconds at a lap time of `lap_time_s`.
pub open spec fn gap_of(player: Micro, other: Micro, side: Side, lap_time_s: Micro) -> Micro {
    crate::fixed::clamped(lap_fraction(player, other, side) * lap_time_s / ONE as int)
}

/// Whether car `i` is a rival on that side.
pub open spec fn is_rival(
    frame: TelemetryFrame,
    lap_time_s: Micro,
    side: Side,
    positions: u8,
    i: int,
) -> bool {
    &&& i != frame.player_car_idx
    &&& active(frame, i)
    &&& in_scan(frame.player_car_position, frame.car_idx_position@[i], side, positions)
    &&& 0 <= gap_of(
        frame.lap_dist_pct,
        frame.car_idx_lap_dist_pct@[i],
        side,
        lap_time_s,
    ) <= MAX_BATTLE_GAP_S
}

/// The rivals below car index `cars` on that side, nearest first.
pub open spec fn rivals(
    frame: TelemetryFrame,
    lap_time_s: Micro,
    side: Side,
    positions: u8,
    cars: nat,
) -> Seq<Numbered>
    decreases cars,
{
    if cars == 0 {
        Seq::empty()
    } else {
        let rest = rivals(frame, lap_time_s, side, positions, (cars - 1) as nat);
        let i = cars - 1;
        if is_rival(frame, lap_time_s, side, positions, i) {
            crate::rank::ranked_insert(
                rest,
                (
                    i as u8,
                    gap_of(
                        frame.lap_dist_pct,
                        frame.car_idx_lap_dist_pct@[i],
                        side,
                        lap_time_s,
                    ),
                ),
            )
        } else {
            rest
        }
    }
}

/// The rivals on one side of the player, nearest first.
pub fn find_cars(
    frame: &TelemetryFrame,
    lap_time_s: Micro,
    side: Side,
    positions: u8,
) -> (r: Vec<Numbered>)
    ensures
        r@ == rivals(*frame, lap_time_s, side, positions, 256),
{
    let mut out: Vec<Numbered> = Vec::new();
    let mut i: usize = 0;
    while i < 256
        invariant
            i <= 256,
            out@ == rivals(*frame, lap_time_s, side, positions, i as nat),
        decreases 256 - i,
    {
        if i < frame.car_idx_position.len() && i < frame.car_idx_lap_dist_pct.len() && i
            != frame.player_car_idx as usize {
            let pos: u8 = frame.car_idx_position[i];
            let place: Micro = frame.car_idx_lap_dist_pct[i];
            let player_pos: u8 = frame.player_car_position;
            let scanned: bool = match side {
                Side::Ahead => pos < player_pos && player_pos - pos <= positions,
                Side::Behind => pos > player_pos && pos - player_pos <= positions,
            };
            if pos > 0 && place > INACTIVE_LAP_DIST && scanned {
                let gap: Micro = gap_between(frame.lap_dist_pct, place, side, lap_time_s);
                if 0 <= gap && gap <= MAX_BATTLE_GAP_S {
                    insert_in_rank(&mut out, (i as u8, gap));
                }
            }
        }
        i = i + 1;
    }
    out
}

/// The gap in seconds between the player and another car on that side.
pub fn gap_between(player: Micro, other: Micro, side: Side, lap_time_s: Micro) -> (r: Micro)
    ensures
        r == gap_of(player, other, side, lap_time_s),
{
    let d: i128 = match side {
        Side::Ahead => other as i128 - player as i128,
        Side::Behind => player as i128 - other as i128,
    };
    let part: i128 = if d < 0 {
        d + ONE as i128
    } else {
        d
    };
    proof {
        let p = part as int;
        let t = lap_time_s as int;
        assert(-0xffff_ffff_ffff_ffff * 0x8000_0000_0000_0000 <= p * t <= 0xffff_ffff_ffff_ffff
            * 0x8000_0000_0000_0000) by (nonlinear_arith)
            requires
                -0xffff_ffff_ffff_ffff <= p <= 0xffff_ffff_ffff_ffff,
                -0x8000_0000_0000_0000 <= t <= 0x7fff_ffff_ffff_ffff,
        ;
    }
    clamp(quotient(part * lap_time_s as i128, ONE as i128))
}

/// The cars at most `positions` race positions ahead and within battle distance,
/// nearest first.
pub fn find_cars_ahead(frame: &TelemetryFrame, lap_time_s: Micro, positions: u8) -> (r: Vec<
    Numbered,
>)
    ensures
        r@ == rivals(*frame, lap_time_s, Side::Ahead, positions, 256),
{
    find_cars(frame, lap_time_s, Side::Ahead, positions)
}

/// The cars at most `positions` race positions behind and within battle
/// distance, nearest first.
pub fn find_cars_behind(frame: &TelemetryFrame, lap_time_s: Micro, positions: u8) -> (r: Vec<
    Numbered,
>)
    ensures
        r@ == rivals(*frame, lap_time_s, Side::Behind, positions, 256),
{
    find_cars(frame, lap_time_s, Side::Behind, positions)
}

/// The rivals stand in order of their gaps, every one of them is a rival with
/// that gap, and every rival is among them.
pub proof fn rivals_are_ranked_and_complete(
    frame: TelemetryFrame,
    lap_time_s: Micro,
    side: Side,
    positions: u8,
    cars: nat,
)
    requires
        cars <= 256,
    ensures
        crate::rank::rises(rivals(frame, lap_time_s, side, positions, cars)),
        forall|x: Numbered| #[trigger]
            rivals(frame, lap_time_s, side, positions, cars).to_multiset().contains(x) <==> (x.0
                < cars && is_rival(frame, lap_time_s, side, positions, x.0 as int) && x.1
                == gap_of(
                frame.lap_dist_pct,
                frame.car_idx_lap_dist_pct@[x.0 as int],
                side,
                lap_time_s,
            )),
    decreases cars,
{
    broadcast use vstd::seq_lib::group_to_multiset_ensures;

    if cars > 0 {
        rivals_are_ranked_and_complete(frame, lap_time_s, side, positions, (cars - 1) as nat);
        let rest = rivals(frame, lap_time_s, side, positions, (cars - 1) as nat);
        let i = cars - 1;
        let x = (
            i as u8,
            gap_of(frame.lap_dist_pct, frame.car_idx_lap_dist_pct@[i], side, lap_time_s),
        );
        crate::rank::ranked_insert_keeps_order(rest, x);
        let all = rivals(frame, lap_time_s, side, positions, cars);
        assert forall|y: Numbered| #[trigger] all.to_multiset().contains(y) <==> (y.0 < cars
            && is_rival(frame, lap_time_s, side, positions, y.0 as int) && y.1 == gap_of(
            frame.lap_dist_pct,
            frame.car_idx_lap_dist_pct@[y.0 as int],
            side,
            lap_time_s,
        )) by {
            assert(rest.to_multiset().contains(y) <==> (y.0 < i && is_rival(
                frame,
                lap_time_s,
                side,
                positions,
                y.0 as int,
            ) && y.1 == gap_of(
                frame.lap_dist_pct,
                frame.car_idx_lap_dist_pct@[y.0 as int],
                side,
                lap_time_s,
            )));
        }
    }
}

/// A gap is the part of the lap from the one car to the other, at the pace of the lap
/// time and rounded down. The way may lead over the line.
pub proof fn a_gap_is_the_way_at_the_pace(
    player: Micro,
    other: Micro,
    side: Side,
    lap_time_s: Micro,
)
    requires
        0 <= player < 1_000_000,
        0 <= other < 1_000_000,
        lap_time_s >= 0,
    ensures
        ({
            let g = gap_of(player, other, side, lap_time_s);
            let ahead = match side {
                Side::Ahead => other - player,
                Side::Behind => player - other,
            };
            let way = if ahead >= 0 {
                ahead
            } else {
                1_000_000 + ahead
            };
            &&& 0 <= g <= lap_time_s
            &&& g * 1_000_000 <= way * lap_time_s < (g + 1) * 1_000_000
        }),
{
    let way = lap_fraction(player, other, side);
    let t = lap_time_s as int;
    let x = way * t;
    assert(0 <= x <= 1_000_000 * t) by (nonlinear_arith)
        requires
            x == way * t,
            0 <= way <= 1_000_000,
            t >= 0,
    ;
}

/// The way from the one car ahead to the other is the way from the other back to the
/// one; both ways round make up a lap, but for the rounding.
pub proof fn the_ways_make_up_a_lap(player: Micro, other: Micro, lap_time_s: Micro)
    requires
        0 <= player < 1_000_000,
        0 <= other < 1_000_000,
        lap_time_s >= 0,
    ensures
        gap_of(player, other, Side::Ahead, lap_time_s) == gap_of(
            other,
            player,
            Side::Behind,
            lap_time_s,
        ),
        player != other ==> lap_time_s - 1 <= gap_of(player, other, Side::Ahead, lap_time_s)
            + gap_of(player, other, Side::Behind, lap_time_s) <= lap_time_s,
{
    a_gap_is_the_way_at_the_pace(player, other, Side::Ahead, lap_time_s);
    a_gap_is_the_way_at_the_pace(player, other, Side::Behind, lap_time_s);
    let a = lap_fraction(player, other, Side::Ahead);
    let b = lap_fraction(player, other, Side::Behind);
    let t = lap_time_s as int;
    if player != other {
        assert(a * t + b * t == 1_000_000 * t) by (nonlinear_arith)
            requires
                a + b == 1_000_000,
        ;
    }
}

/// A rival is another car with a position and a place on the lap, no more than the asked
/// for number of positions ahead of the player or behind, and no more than five seconds
/// away.
pub proof fn a_rival_is_in_reach(
    frame: TelemetryFrame,
    lap_time_s: Micro,
    side: Side,
    positions: u8,
    i: int,
)
    requires
        0 <= i < frame.car_idx_position@.len(),
        i < frame.car_idx_lap_dist_pct@.len(),
    ensures
        ({
            let pos = frame.car_idx_position@[i];
            let own = frame.player_car_position;
            let place = frame.car_idx_lap_dist_pct@[i];
            is_rival(frame, lap_time_s, side, positions, i) <==> {
                &&& i != frame.player_car_idx
                &&& pos >= 1
                &&& place > -500_000
                &&& match side {
                    Side::Ahead => 1 <= own - pos <= positions,
                    Side::Behind => 1 <= pos - own <= positions,
                }
                &&& 0 <= gap_of(frame.lap_dist_pct, place, side, lap_time_s) <= 5_000_000
            }
        }),
{
}

} // verus!
