//! The player's laps: where they ended, how long they took, what was pitted.

use std::collections::{HashMap, HashSet};

use vstd::prelude::*;

use crate::fixed::Micro;
use crate::race_event::RaceEvent;
use crate::telemetry_frame::TelemetryFrame;

verus! {

broadcast use vstd::std_specs::hash::group_hash_axioms;

/// A lap is flagged as a pit lap once this many frames were spent on pit road.
pub const PIT_LAP_FRAME_THRESH: u32 = 20;

/// What a [`LapBook`] holds.
#[verifier::ext_equal]
pub struct LapBookView {
    pub pit_frames: Map<u8, u32>,
    pub pit_laps: Set<u8>,
    pub end_positions: Map<u8, u8>,
    pub best_lap_time_s: Option<Micro>,
    pub prev_lap: Option<u8>,
    pub prev_position: Option<u8>,
}

/// Frames that a lap spent on pit road.
pub open spec fn pit_frames_of(b: LapBookView, lap: u8) -> u32 {
    if b.pit_frames.contains_key(lap) {
        b.pit_frames[lap]
    } else {
        0
    }
}

/// The book after one more frame on pit road.
pub open spec fn pit_counted(b: LapBookView, lap: u8) -> LapBookView {
    LapBookView {
        pit_frames: b.pit_frames.insert(
            lap,
            crate::engagement::one_more(pit_frames_of(b, lap)),
        ),
        ..b
    }
}

/// The lap that is over when a frame of `lap` comes.
pub open spec fn finished(b: LapBookView, lap: u8) -> Option<u8> {
    match b.prev_lap {
        Some(p) => if p != lap {
            Some(p)
        } else {
            None
        },
        None => None,
    }
}

/// Position in which the finished lap ended: that of the frame before.
pub open spec fn end_position(b: LapBookView, frame: TelemetryFrame) -> u8 {
    match b.prev_position {
        Some(p) => p,
        None => frame.player_car_position,
    }
}

/// The better of the best lap and a new one.
pub open spec fn best_lap(best: Option<Micro>, lap_time: Option<Micro>) -> Option<Micro> {
    match (best, lap_time) {
        (Some(b), Some(t)) => if b <= t {
            best
        } else {
            lap_time
        },
        (None, _) => lap_time,
        (_, None) => best,
    }
}

/// The book after a lap is over.
pub open spec fn lap_closed(
    b: LapBookView,
    frame: TelemetryFrame,
    done: u8,
    lap_time: Option<Micro>,
) -> LapBookView {
    LapBookView {
        pit_laps: if pit_frames_of(b, done) >= PIT_LAP_FRAME_THRESH {
            b.pit_laps.insert(done)
        } else {
            b.pit_laps
        },
        end_positions: b.end_positions.insert(done, end_position(b, frame)),
        best_lap_time_s: best_lap(b.best_lap_time_s, lap_time),
        ..b
    }
}

/// First car at or after index `from` that holds race position `pos` and is not
/// the player.
pub open spec fn holder_of(frame: TelemetryFrame, pos: int, from: int) -> Option<u8>
    decreases 256 - from,
{
    if from >= 256 || from >= frame.car_idx_position@.len() {
        None
    } else if frame.car_idx_position@[from] == pos && from != frame.player_car_idx {
        Some(from as u8)
    } else {
        holder_of(frame, pos, from + 1)
    }
}

/// Where the lap before ended, where that is known.
pub open spec fn position_before(b: LapBookView, done: u8) -> Option<u8> {
    if done > 0 && b.end_positions.contains_key((done - 1) as u8) {
        Some(b.end_positions[(done - 1) as u8])
    } else {
        None
    }
}

/// Whether the finished lap won positions on the track.
pub open spec fn overtook(b: LapBookView, frame: TelemetryFrame, done: u8) -> bool {
    let pitted = b.pit_laps.contains(done) || pit_frames_of(b, done) >= PIT_LAP_FRAME_THRESH;
    position_before(b, done) matches Some(p) && p > end_position(b, frame) && !pitted
}

/// The event of won positions. The car that was passed last is the one that now
/// follows.
pub open spec fn overtake_event(b: LapBookView, frame: TelemetryFrame, done: u8) -> RaceEvent {
    let from = position_before(b, done)->0;
    let to = end_position(b, frame);
    let overtaken = holder_of(frame, to + 1, 0);
    if to == 1 {
        RaceEvent::OvertakeForLead {
            lap: done,
            session_time: frame.session_time,
            car_idx: frame.player_car_idx,
            overtaken_car_idx: overtaken,
            position_from: from,
            positions_gained: (from - to) as u8,
        }
    } else {
        RaceEvent::Overtake {
            lap: done,
            session_time: frame.session_time,
            car_idx: frame.player_car_idx,
            overtaken_car_idx: overtaken,
            position_from: from,
            position_to: to,
            positions_gained: (from - to) as u8,
        }
    }
}

/// The event of a finished lap.
pub open spec fn completed_event(
    b: LapBookView,
    frame: TelemetryFrame,
    done: u8,
    lap_time: Option<Micro>,
) -> RaceEvent {
    RaceEvent::LapCompleted {
        lap: done,
        session_time: frame.session_time,
        player_car_idx: frame.player_car_idx,
        lap_time_s: lap_time,
        best_lap_time_s: best_lap(b.best_lap_time_s, lap_time),
        position: end_position(b, frame),
        pit_frames: pit_frames_of(b, done),
    }
}

/// The events of a finished lap.
pub open spec fn closing_events(
    b: LapBookView,
    frame: TelemetryFrame,
    done: u8,
    lap_time: Option<Micro>,
) -> Seq<RaceEvent> {
    let completed = completed_event(b, frame, done, lap_time);
    if overtook(b, frame, done) {
        seq![completed, overtake_event(b, frame, done)]
    } else {
        seq![completed]
    }
}

/// A book without laps.
pub open spec fn blank_book() -> LapBookView {
    LapBookView {
        pit_frames: Map::empty(),
        pit_laps: Set::empty(),
        end_positions: Map::empty(),
        best_lap_time_s: None,
        prev_lap: None,
        prev_position: None,
    }
}

/// The player's laps.
pub struct LapBook {
    pit_frames: HashMap<u8, u32>,
    pit_laps: HashSet<u8>,
    end_positions: HashMap<u8, u8>,
    best_lap_time_s: Option<Micro>,
    prev_lap: Option<u8>,
    prev_position: Option<u8>,
}

impl View for LapBook {
    type V = LapBookView;

    closed spec fn view(&self) -> LapBookView {
        LapBookView {
            pit_frames: self.pit_frames@,
            pit_laps: self.pit_laps@,
            end_positions: self.end_positions@,
            best_lap_time_s: self.best_lap_time_s,
            prev_lap: self.prev_lap,
            prev_position: self.prev_position,
        }
    }
}

impl LapBook {
    /// A book without laps.
    pub fn new() -> (r: Self)
        ensures
            r@ == blank_book(),
    {
        LapBook {
            pit_frames: HashMap::new(),
            pit_laps: HashSet::new(),
            end_positions: HashMap::new(),
            best_lap_time_s: None,
            prev_lap: None,
            prev_position: None,
        }
    }

    /// Remembers the lap of a frame in which the player is not classified.
    pub fn skip(&mut self, lap: u8)
        ensures
            final(self)@ == (LapBookView { prev_lap: Some(lap), ..old(self)@ }),
    {
        self.prev_lap = Some(lap);
    }

    /// Remembers the lap and the position of a frame.
    pub fn carry(&mut self, lap: u8, position: u8)
        ensures
            final(self)@ == (LapBookView {
                prev_lap: Some(lap),
                prev_position: Some(position),
                ..old(self)@
            }),
    {
        self.prev_lap = Some(lap);
        self.prev_position = Some(position);
    }

    /// Counts a frame on pit road.
    pub fn count_pit_frame(&mut self, lap: u8)
        ensures
            final(self)@ == pit_counted(old(self)@, lap),
    {
        let n: u32 = self.pit_frames_in(lap);
        self.pit_frames.insert(lap, n.saturating_add(1));
    }

    /// Frames that a lap spent on pit road.
    pub fn pit_frames_in(&self, lap: u8) -> (r: u32)
        ensures
            r == pit_frames_of(self@, lap),
    {
        match self.pit_frames.get(&lap) {
            Some(n) => *n,
            None => 0,
        }
    }

    /// The best lap time so far.
    pub fn best(&self) -> (r: Option<Micro>)
        ensures
            r == self@.best_lap_time_s,
    {
        self.best_lap_time_s
    }

    /// Whether a lap was flagged as a pit lap.
    pub fn is_pit_lap(&self, lap: u8) -> (r: bool)
        ensures
            r == self@.pit_laps.contains(lap),
    {
        self.pit_laps.contains(&lap)
    }

    /// The lap that is over when a frame of `lap` comes.
    pub fn finished_lap(&self, lap: u8) -> (r: Option<u8>)
        ensures
            r == finished(self@, lap),
    {
        match self.prev_lap {
            Some(p) => if p != lap {
                Some(p)
            } else {
                None
            },
            None => None,
        }
    }

    /// Closes a lap and appends its events.
    pub fn close_lap(
        &mut self,
        frame: &TelemetryFrame,
        done: u8,
        lap_time: Option<Micro>,
        events: &mut Vec<RaceEvent>,
    )
        ensures
            final(self)@ == lap_closed(old(self)@, *frame, done, lap_time),
            final(events)@ == old(events)@ + closing_events(
                old(self)@,
                *frame,
                done,
                lap_time,
            ),
    {
        let ghost b = self@;
        let ghost before = events@;
        let pit_frames: u32 = self.pit_frames_in(done);
        if pit_frames >= PIT_LAP_FRAME_THRESH {
            self.pit_laps.insert(done);
        }
        let pitted: bool = self.pit_laps.contains(&done);
        let to: u8 = match self.prev_position {
            Some(p) => p,
            None => frame.player_car_position,
        };
        let from: Option<u8> = if done > 0 {
            let key: u8 = done - 1;
            match self.end_positions.get(&key) {
                Some(p) => Some(*p),
                None => None,
            }
        } else {
            None
        };
        self.end_positions.insert(done, to);
        self.best_lap_time_s = match (self.best_lap_time_s, lap_time) {
            (Some(b), Some(t)) => if b <= t {
                Some(b)
            } else {
                Some(t)
            },
            (None, t) => t,
            (b, None) => b,
        };
        events.push(
            RaceEvent::LapCompleted {
                lap: done,
                session_time: frame.session_time,
                player_car_idx: frame.player_car_idx,
                lap_time_s: lap_time,
                best_lap_time_s: self.best_lap_time_s,
                position: to,
                pit_frames,
            },
        );
        if let Some(from) = from {
            if from > to && !pitted {
                let overtaken: Option<u8> = find_holder(frame, to as u16 + 1);
                if to == 1 {
                    events.push(
                        RaceEvent::OvertakeForLead {
                            lap: done,
                            session_time: frame.session_time,
                            car_idx: frame.player_car_idx,
                            overtaken_car_idx: overtaken,
                            position_from: from,
                            positions_gained: from - to,
                        },
                    );
                } else {
                    events.push(
                        RaceEvent::Overtake {
                            lap: done,
                            session_time: frame.session_time,
                            car_idx: frame.player_car_idx,
                            overtaken_car_idx: overtaken,
                            position_from: from,
                            position_to: to,
                            positions_gained: from - to,
                        },
                    );
                }
            }
        }
        proof {
            assert(self@ =~= lap_closed(b, *frame, done, lap_time));
            assert(events@ =~= before + closing_events(b, *frame, done, lap_time));
        }
    }
}

/// The car that holds a race position and is not the player.
fn find_holder(frame: &TelemetryFrame, pos: u16) -> (r: Option<u8>)
    ensures
        r == holder_of(*frame, pos as int, 0),
{
    let mut i: usize = 0;
    while i < 256 && i < frame.car_idx_position.len()
        invariant
            i <= 256,
            holder_of(*frame, pos as int, 0) == holder_of(*frame, pos as int, i as int),
        decreases 256 - i,
    {
        if frame.car_idx_position[i] as u16 == pos && i != frame.player_car_idx as usize {
            return Some(i as u8);
        }
        i = i + 1;
    }
    None
}

/// The best lap time never gets worse, and is not forgotten.
pub proof fn best_lap_never_worsens(
    b: LapBookView,
    frame: TelemetryFrame,
    done: u8,
    lap_time: Option<Micro>,
)
    requires
        b.best_lap_time_s is Some,
    ensures
        lap_closed(b, frame, done, lap_time).best_lap_time_s matches Some(t) && t
            <= b.best_lap_time_s->0,
{
}

/// The best lap is no slower than the lap just finished.
pub proof fn best_lap_covers_the_new_one(
    b: LapBookView,
    frame: TelemetryFrame,
    done: u8,
    lap_time: Micro,
)
    ensures
        lap_closed(b, frame, done, Some(lap_time)).best_lap_time_s matches Some(t) && t
            <= lap_time,
{
}

/// No overtake is reported for a lap through the pits.
pub proof fn pit_laps_overtake_nobody(b: LapBookView, frame: TelemetryFrame, done: u8)
    requires
        pit_frames_of(b, done) >= PIT_LAP_FRAME_THRESH,
    ensures
        !overtook(b, frame, done),
{
}

} // verus!
