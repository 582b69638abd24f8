//! Lap durations from the session clock.

use std::collections::HashMap;

use vstd::prelude::*;

use crate::fixed::{minus, Micro};

verus! {

broadcast use vstd::std_specs::hash::group_hash_axioms;

/// Lap time that is taken for granted until a lap has been timed, in seconds.
pub const NURBURGRING_LAP_EST_S: i64 = 540_000_000;

/// When each lap was first seen, how long the timed ones took, and the duration
/// that was found last.
#[verifier::ext_equal]
pub struct LapTimes {
    pub starts: Map<u8, Micro>,
    pub times: Map<u8, Micro>,
    pub latest: Option<Micro>,
}

/// The times after a frame of `lap` at `session_time`. Only the first frame of a
/// lap counts; it ends the lap before, where that one's start was seen.
pub open spec fn timed(t: LapTimes, lap: u8, session_time: Micro) -> LapTimes {
    if t.starts.contains_key(lap) {
        t
    } else {
        let starts = t.starts.insert(lap, session_time);
        if lap > 0 && t.starts.contains_key((lap - 1) as u8) {
            let taken = crate::fixed::clamped(session_time - t.starts[(lap - 1) as u8]);
            LapTimes {
                starts,
                times: t.times.insert((lap - 1) as u8, taken),
                latest: Some(taken),
            }
        } else {
            LapTimes { starts, ..t }
        }
    }
}

/// Most recent lap time, or the estimate where no lap has been timed.
pub open spec fn estimate(t: LapTimes) -> Micro {
    match t.latest {
        Some(x) => x,
        None => NURBURGRING_LAP_EST_S,
    }
}

/// Time of a lap, where it was timed.
pub open spec fn lap_time(t: LapTimes, lap: u8) -> Option<Micro> {
    if t.times.contains_key(lap) {
        Some(t.times[lap])
    } else {
        None
    }
}

/// Derives lap durations from the first session time seen per lap.
pub struct LapTimer {
    starts: HashMap<u8, Micro>,
    times: HashMap<u8, Micro>,
    latest: Option<Micro>,
}

impl View for LapTimer {
    type V = LapTimes;

    closed spec fn view(&self) -> LapTimes {
        LapTimes { starts: self.starts@, times: self.times@, latest: self.latest }
    }
}

impl Default for LapTimer {
    /// A timer that has seen no lap.
    fn default() -> (r: Self)
        ensures
            r@ == (LapTimes { starts: Map::empty(), times: Map::empty(), latest: None }),
    {
        LapTimer::new()
    }
}

impl LapTimer {
    /// A timer that has seen no lap.
    pub fn new() -> (r: Self)
        ensures
            r@ == (LapTimes { starts: Map::empty(), times: Map::empty(), latest: None }),
    {
        LapTimer { starts: HashMap::new(), times: HashMap::new(), latest: None }
    }

    /// To be called on every frame.
    pub fn update(&mut self, lap: u8, session_time: Micro)
        ensures
            final(self)@ == timed(old(self)@, lap, session_time),
    {
        if self.starts.contains_key(&lap) {
            return ;
        }
        if lap > 0 {
            let before: u8 = lap - 1;
            let started: Option<Micro> = match self.starts.get(&before) {
                Some(t) => Some(*t),
                None => None,
            };
            if let Some(t) = started {
                let taken: Micro = minus(session_time, t);
                self.times.insert(before, taken);
                self.latest = Some(taken);
            }
        }
        self.starts.insert(lap, session_time);
    }

    /// Best estimate of the current lap time.
    pub fn best_estimate(&self) -> (r: Micro)
        ensures
            r == estimate(self@),
    {
        match self.latest {
            Some(x) => x,
            None => NURBURGRING_LAP_EST_S,
        }
    }

    /// Duration of a finished lap, where it is known.
    pub fn completed(&self, lap: u8) -> (r: Option<Micro>)
        ensures
            r == lap_time(self@, lap),
    {
        match self.times.get(&lap) {
            Some(t) => Some(*t),
            None => None,
        }
    }
}

/// A second frame of the same lap changes nothing, whatever its time.
pub proof fn only_the_first_frame_of_a_lap_counts(
    t: LapTimes,
    lap: u8,
    first: Micro,
    second: Micro,
)
    ensures
        timed(timed(t, lap, first), lap, second) == timed(t, lap, first),
{
}

/// A lap takes from its own first frame to the first frame of the next one, and the time
/// that was found last is the estimate.
pub proof fn a_lap_lasts_to_the_next_ones_first_frame(
    t: LapTimes,
    lap: u8,
    start: Micro,
    end: Micro,
)
    requires
        lap < 255,
        !t.starts.contains_key(lap),
        !t.starts.contains_key((lap + 1) as u8),
        0 <= start <= end,
    ensures
        ({
            let next = (lap + 1) as u8;
            let after = timed(timed(t, lap, start), next, end);
            &&& lap_time(after, lap) == Some((end - start) as i64)
            &&& estimate(after) == end - start
            &&& after.starts[lap] == start
            &&& after.starts[next] == end
            &&& forall|other: u8|
                other != lap && lap > 0 && other != lap - 1 ==> #[trigger] lap_time(after, other)
                    == lap_time(t, other)
        }),
{
}

/// Before any lap was timed, nine minutes are taken for granted.
pub proof fn nine_minutes_until_a_lap_is_timed(t: LapTimes)
    requires
        t.latest is None,
    ensures
        estimate(t) == 9 * 60 * 1_000_000,
{
}

} // verus!
