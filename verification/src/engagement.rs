//! Battles at close quarters, one side of the player at a time.

use vstd::prelude::*;

use crate::battle_state::{CLOSE_APPROACH_MIN_FRAMES, CLOSE_APPROACH_THRESH_S};
use crate::fixed::{minus, Micro};
use crate::race_event::RaceEvent;
use crate::rank::Numbered;
use crate::telemetry_frame::TelemetryFrame;

verus! {

/// Time that must pass from one battle to the next on the same side, in seconds.
pub const RE_ENGAGE_S: i64 = 30_000_000;

/// The battle on one side of the player.
#[derive(Debug, Clone, Copy, PartialEq, Eq, Structural)]
pub struct Engagement {
    /// Frames in a row in which the nearest car was close.
    pub consecutive_close: u32,
    /// When the last battle began.
    pub last_close_t: Option<Micro>,
    /// The car of the battle that is on.
    pub tracking_car: Option<u8>,
}

/// What the player's history with the nearest car holds.
#[derive(Debug, Clone, Copy, PartialEq, Eq, Structural)]
pub struct Prior {
    pub skirmishes: u32,
    pub attack_time_s: Micro,
}

/// Whether the nearest car is close.
pub open spec fn is_close(nearest: Option<Numbered>) -> bool {
    nearest matches Some(x) && x.1 < CLOSE_APPROACH_THRESH_S
}

/// One more, up to the end of the range.
pub open spec fn one_more(n: u32) -> u32 {
    if n < u32::MAX {
        (n + 1) as u32
    } else {
        n
    }
}

/// Whether a battle begins with this frame: the nearest car has been close for
/// long enough, is not the one that is fought already, and the last battle began
/// long enough ago.
pub open spec fn begins(e: Engagement, t: Micro, nearest: Option<Numbered>) -> bool {
    &&& is_close(nearest)
    &&& one_more(e.consecutive_close) >= CLOSE_APPROACH_MIN_FRAMES
    &&& (e.last_close_t matches Some(last) ==> t - last > RE_ENGAGE_S)
    &&& e.tracking_car != Some((nearest->0).0)
}

/// Whether the battle that is on ends with this frame: the nearest car is not
/// close any more, or another battle begins.
pub open spec fn ends(e: Engagement, t: Micro, nearest: Option<Numbered>) -> bool {
    e.tracking_car is Some && (!is_close(nearest) || begins(e, t, nearest))
}

/// The side after a frame.
pub open spec fn engagement_step(
    e: Engagement,
    t: Micro,
    nearest: Option<Numbered>,
) -> Engagement {
    if !is_close(nearest) {
        Engagement { consecutive_close: 0, last_close_t: e.last_close_t, tracking_car: None }
    } else if begins(e, t, nearest) {
        Engagement {
            consecutive_close: one_more(e.consecutive_close),
            last_close_t: Some(t),
            tracking_car: Some((nearest->0).0),
        }
    } else {
        Engagement { consecutive_close: one_more(e.consecutive_close), ..e }
    }
}

/// The end of the battle that is on. Its gap is known where the nearest car is still
/// the one that was fought.
pub open spec fn broken_event(
    e: Engagement,
    frame: TelemetryFrame,
    nearest: Option<Numbered>,
) -> RaceEvent {
    let car = e.tracking_car->0;
    RaceEvent::BattleBroken {
        lap: frame.lap,
        session_time: frame.session_time,
        player_car_idx: frame.player_car_idx,
        opponent_car_idx: car,
        final_gap_sec: match nearest {
            Some(x) => if x.0 == car {
                Some(x.1)
            } else {
                None
            },
            None => None,
        },
        car_race_position: crate::telemetry_frame::position_of(frame, car as int),
        engagement_started_at_session_time_s: match e.last_close_t {
            Some(t) => t,
            None => frame.session_time,
        },
    }
}

/// The beginning of a battle with the nearest car.
pub open spec fn engaged_event(frame: TelemetryFrame, nearest: Numbered, prior: Prior) -> RaceEvent {
    RaceEvent::BattleEngaged {
        lap: frame.lap,
        session_time: frame.session_time,
        player_car_idx: frame.player_car_idx,
        opponent_car_idx: nearest.0,
        gap_s: nearest.1,
        car_race_position: crate::telemetry_frame::position_of(frame, nearest.0 as int),
        prior_skirmishes: prior.skirmishes,
        prior_attack_time_s: prior.attack_time_s,
        engagement_started_at_session_time_s: frame.session_time,
    }
}

/// The events of a side in a frame: an end, a beginning, both in this order, or
/// none.
pub open spec fn engagement_events(
    e: Engagement,
    frame: TelemetryFrame,
    nearest: Option<Numbered>,
    prior: Prior,
) -> Seq<RaceEvent> {
    let end = if ends(e, frame.session_time, nearest) {
        seq![broken_event(e, frame, nearest)]
    } else {
        Seq::empty()
    };
    if begins(e, frame.session_time, nearest) {
        end.push(engaged_event(frame, nearest->0, prior))
    } else {
        end
    }
}

impl Engagement {
    /// A side on which nothing has happened.
    pub fn new() -> (r: Self)
        ensures
            r == quiet(),
    {
        Engagement { consecutive_close: 0, last_close_t: None, tracking_car: None }
    }

    /// Takes in one frame with the nearest car on this side, and appends the
    /// events it gives rise to.
    pub fn observe(
        &mut self,
        frame: &TelemetryFrame,
        nearest: Option<Numbered>,
        prior: Prior,
        events: &mut Vec<RaceEvent>,
    )
        ensures
            *final(self) == engagement_step(*old(self), frame.session_time, nearest),
            final(events)@ == old(events)@ + engagement_events(*old(self), *frame, nearest, prior),
    {
        let t: Micro = frame.session_time;
        let ghost before = events@;
        let ghost e = *self;
        let started: Micro = match self.last_close_t {
            Some(s) => s,
            None => t,
        };
        let final_gap_sec: Option<Micro> = match (nearest, self.tracking_car) {
            (Some((car_idx, gap)), Some(c)) => if car_idx == c {
                Some(gap)
            } else {
                None
            },
            _ => None,
        };
        let close: Option<Numbered> = match nearest {
            Some((car_idx, gap)) => if gap < CLOSE_APPROACH_THRESH_S {
                Some((car_idx, gap))
            } else {
                None
            },
            None => None,
        };
        match close {
            Some((car_idx, gap)) => {
                self.consecutive_close = self.consecutive_close.saturating_add(1);
                let rested: bool = match self.last_close_t {
                    Some(last) => minus(t, last) > RE_ENGAGE_S,
                    None => true,
                };
                let same: bool = match self.tracking_car {
                    Some(c) => c == car_idx,
                    None => false,
                };
                if self.consecutive_close >= CLOSE_APPROACH_MIN_FRAMES && rested && !same {
                    if let Some(c) = self.tracking_car {
                        events.push(
                            RaceEvent::BattleBroken {
                                lap: frame.lap,
                                session_time: t,
                                player_car_idx: frame.player_car_idx,
                                opponent_car_idx: c,
                                final_gap_sec,
                                car_race_position: frame.position(c),
                                engagement_started_at_session_time_s: started,
                            },
                        );
                    }
                    self.tracking_car = Some(car_idx);
                    self.last_close_t = Some(t);
                    events.push(
                        RaceEvent::BattleEngaged {
                            lap: frame.lap,
                            session_time: t,
                            player_car_idx: frame.player_car_idx,
                            opponent_car_idx: car_idx,
                            gap_s: gap,
                            car_race_position: frame.position(car_idx),
                            prior_skirmishes: prior.skirmishes,
                            prior_attack_time_s: prior.attack_time_s,
                            engagement_started_at_session_time_s: t,
                        },
                    );
                }
            },
            None => {
                self.consecutive_close = 0;
                if let Some(c) = self.tracking_car {
                    events.push(
                        RaceEvent::BattleBroken {
                            lap: frame.lap,
                            session_time: t,
                            player_car_idx: frame.player_car_idx,
                            opponent_car_idx: c,
                            final_gap_sec,
                            car_race_position: frame.position(c),
                            engagement_started_at_session_time_s: started,
                        },
                    );
                }
                self.tracking_car = None;
            },
        }
        proof {
            assert(events@ =~= before + engagement_events(e, *frame, nearest, prior));
        }
    }
}

/// A side on which nothing has happened.
pub open spec fn quiet() -> Engagement {
    Engagement { consecutive_close: 0, last_close_t: None, tracking_car: None }
}

/// A battle is reported as broken only while one is on, and it is the car of
/// that battle that is named.
pub proof fn only_a_battle_that_is_on_can_break(
    e: Engagement,
    frame: TelemetryFrame,
    nearest: Option<Numbered>,
    prior: Prior,
    i: int,
)
    requires
        0 <= i < engagement_events(e, frame, nearest, prior).len(),
        crate::race_event::kind_of(engagement_events(e, frame, nearest, prior)[i])
            == crate::race_event::RaceEventKind::BattleBroken,
    ensures
        e.tracking_car is Some,
        engagement_events(e, frame, nearest, prior)[i] == broken_event(e, frame, nearest),
{
}

/// A battle is on after a frame exactly where one begins with it, or where one
/// was on and does not end with it. So beginnings and ends take turns.
pub proof fn beginnings_and_ends_take_turns(e: Engagement, t: Micro, nearest: Option<Numbered>)
    ensures
        engagement_step(e, t, nearest).tracking_car is Some <==> (begins(e, t, nearest) || (
        e.tracking_car is Some && !ends(e, t, nearest))),
        !begins(e, t, nearest) && !ends(e, t, nearest) ==> engagement_step(
            e,
            t,
            nearest,
        ).tracking_car == e.tracking_car,
{
}

/// A battle needs five close frames in a row: after a frame without a close car
/// none begins before the fifth.
pub proof fn a_battle_needs_close_frames_in_a_row(
    e: Engagement,
    t: Micro,
    nearest: Option<Numbered>,
)
    requires
        e.consecutive_close + 1 < CLOSE_APPROACH_MIN_FRAMES,
    ensures
        !begins(e, t, nearest),
        engagement_step(e, t, nearest).consecutive_close <= e.consecutive_close + 1,
{
}

/// Two battles on a side begin more than half a minute apart.
pub proof fn battles_are_apart(e: Engagement, t: Micro, nearest: Option<Numbered>, last: Micro)
    requires
        e.last_close_t == Some(last),
        begins(e, t, nearest),
    ensures
        t - last > RE_ENGAGE_S,
        engagement_step(e, t, nearest).last_close_t == Some(t),
{
}

} // verus!
