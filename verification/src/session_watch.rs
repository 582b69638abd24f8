//! Flags and the stages of a session.

use vstd::prelude::*;

use crate::fixed::Micro;
use crate::race_event::{FlagScope, LifecycleOrigin, RaceEvent};
use crate::telemetry_frame::TelemetryFrame;

verus! {

/// The checkered flag is shown.
pub const CHECKERED: u32 = 0x0001;

/// A local yellow is waved.
pub const YELLOW_WAVE: u32 = 0x0100;

/// The whole course is under caution.
pub const CAUTION: u32 = 0x4000;

/// Session state while the race runs.
pub const STATE_RACING: i32 = 4;

/// Session state once the leader has finished.
pub const STATE_CHECKERED: i32 = 5;

/// Session state after the race.
pub const STATE_COOL_DOWN: i32 = 6;

/// What is remembered of the session from frame to frame.
#[derive(Debug, Clone, Copy, PartialEq, Eq, Structural)]
pub struct SessionWatch {
    /// State of the frame before, `None` before the first.
    pub prev_state: Option<i32>,
    pub prev_flags: u32,
    /// The checkered flag has been reported.
    pub checkered_seen: bool,
}

/// Whether a flag came up since the frame before.
pub open spec fn gained(w: SessionWatch, flags: u32, bit: u32) -> bool {
    flags & bit != 0 && w.prev_flags & bit == 0
}

/// Whether the race turns green: the session is in its racing state and was not.
pub open spec fn turns_green(w: SessionWatch, frame: TelemetryFrame) -> bool {
    frame.session_state == STATE_RACING && w.prev_state != Some(STATE_RACING)
}

/// Whether the race ends: by its state, by the flag, or by going straight from
/// racing to the cool-down; once only.
pub open spec fn turns_checkered(w: SessionWatch, frame: TelemetryFrame) -> bool {
    !w.checkered_seen && ((frame.session_state == STATE_CHECKERED && w.prev_state != Some(
        STATE_CHECKERED,
    )) || frame.session_flags & CHECKERED != 0 || (frame.session_state == STATE_COOL_DOWN
        && w.prev_state == Some(STATE_RACING)))
}

/// Whether the driver sits in the car.
pub open spec fn in_car(state: int) -> bool {
    state != 0
}

/// Whether the driver sat in the car before.
pub open spec fn was_in_car(w: SessionWatch) -> bool {
    w.prev_state matches Some(s) && in_car(s as int)
}

/// A lifecycle event is synthetic where no frame came before.
pub open spec fn origin_of(w: SessionWatch) -> LifecycleOrigin {
    if w.prev_state is None {
        LifecycleOrigin::ConnectSnapshot
    } else {
        LifecycleOrigin::SessionStateTransition
    }
}

/// `s` with `e` behind it where `c` holds.
pub open spec fn push_if(s: Seq<RaceEvent>, c: bool, e: RaceEvent) -> Seq<RaceEvent> {
    if c {
        s.push(e)
    } else {
        s
    }
}

/// The session events of a frame.
pub open spec fn session_events(w: SessionWatch, frame: TelemetryFrame) -> Seq<RaceEvent> {
    let lap = frame.lap;
    let session_time = frame.session_time;
    let player_car_idx = frame.player_car_idx;
    let synthetic = w.prev_state is None;
    let origin = origin_of(w);
    let now = in_car(frame.session_state as int);
    let full = gained(w, frame.session_flags, CAUTION);
    let a = push_if(
        Seq::empty(),
        turns_green(w, frame),
        RaceEvent::RaceGreen { lap, session_time, synthetic, origin },
    );
    let b = push_if(
        a,
        turns_checkered(w, frame),
        RaceEvent::RaceCheckered { lap, session_time, synthetic, origin },
    );
    let c = push_if(
        b,
        now && !was_in_car(w),
        RaceEvent::DriverEnteredCar { lap, session_time, player_car_idx },
    );
    let d = push_if(
        c,
        !now && was_in_car(w),
        RaceEvent::DriverExitedCar { lap, session_time, player_car_idx },
    );
    let e = push_if(d, full, RaceEvent::FlagYellowFullCourse { lap, session_time });
    push_if(
        e,
        !full && gained(w, frame.session_flags, YELLOW_WAVE),
        RaceEvent::FlagYellowLocal {
            lap,
            session_time,
            trigger_car_idx: None,
            lap_dist_pct: Some(frame.lap_dist_pct),
            sector: None,
            scope: FlagScope::Unknown,
            linked_incident_id: None,
        },
    )
}

/// What is remembered after a frame.
pub open spec fn watched(w: SessionWatch, frame: TelemetryFrame) -> SessionWatch {
    SessionWatch {
        prev_state: Some(frame.session_state),
        prev_flags: frame.session_flags,
        checkered_seen: w.checkered_seen || turns_checkered(w, frame),
    }
}

/// A watch that has seen no frame.
pub open spec fn unwatched() -> SessionWatch {
    SessionWatch { prev_state: None, prev_flags: 0, checkered_seen: false }
}

impl SessionWatch {
    /// A watch that has seen no frame.
    pub fn new() -> (r: Self)
        ensures
            r == unwatched(),
    {
        SessionWatch { prev_state: None, prev_flags: 0, checkered_seen: false }
    }

    /// Takes in one frame and appends its session events.
    pub fn observe(&mut self, frame: &TelemetryFrame, events: &mut Vec<RaceEvent>)
        ensures
            *final(self) == watched(*old(self), *frame),
            final(events)@ == old(events)@ + session_events(*old(self), *frame),
    {
        let ghost before = events@;
        let ghost w = *self;
        let lap: u8 = frame.lap;
        let session_time: Micro = frame.session_time;
        let player_car_idx: u8 = frame.player_car_idx;
        let state: i32 = frame.session_state;
        let flags: u32 = frame.session_flags;
        let synthetic: bool = self.prev_state.is_none();
        let origin: LifecycleOrigin = if synthetic {
            LifecycleOrigin::ConnectSnapshot
        } else {
            LifecycleOrigin::SessionStateTransition
        };
        let (was_racing, was_checkered, was_in): (bool, bool, bool) = match self.prev_state {
            Some(s) => (s == STATE_RACING, s == STATE_CHECKERED, s != 0),
            None => (false, false, false),
        };
        if state == STATE_RACING && !was_racing {
            events.push(RaceEvent::RaceGreen { lap, session_time, synthetic, origin });
        }
        let over: bool = (state == STATE_CHECKERED && !was_checkered) || flags & CHECKERED != 0 || (
        state == STATE_COOL_DOWN && was_racing);
        if over && !self.checkered_seen {
            events.push(RaceEvent::RaceCheckered { lap, session_time, synthetic, origin });
            self.checkered_seen = true;
        }
        if state != 0 && !was_in {
            events.push(RaceEvent::DriverEnteredCar { lap, session_time, player_car_idx });
        }
        if state == 0 && was_in {
            events.push(RaceEvent::DriverExitedCar { lap, session_time, player_car_idx });
        }
        if flags & CAUTION != 0 && self.prev_flags & CAUTION == 0 {
            events.push(RaceEvent::FlagYellowFullCourse { lap, session_time });
        } else if flags & YELLOW_WAVE != 0 && self.prev_flags & YELLOW_WAVE == 0 {
            events.push(
                RaceEvent::FlagYellowLocal {
                    lap,
                    session_time,
                    trigger_car_idx: None,
                    lap_dist_pct: Some(frame.lap_dist_pct),
                    sector: None,
                    scope: FlagScope::Unknown,
                    linked_incident_id: None,
                },
            );
        }
        self.prev_state = Some(state);
        self.prev_flags = flags;
        proof {
            assert(events@ =~= before + session_events(w, *frame));
        }
    }
}

/// The race turns green once per transition: a second racing frame gives no
/// second green.
pub proof fn green_once_per_transition(
    w: SessionWatch,
    first: TelemetryFrame,
    second: TelemetryFrame,
)
    requires
        first.session_state == STATE_RACING,
    ensures
        !turns_green(watched(w, first), second),
{
}

/// The checkered flag is reported at most once, however long the session lasts.
pub proof fn checkered_once(w: SessionWatch, frame: TelemetryFrame, later: TelemetryFrame)
    requires
        w.checkered_seen || turns_checkered(w, frame),
    ensures
        watched(w, frame).checkered_seen,
        !turns_checkered(watched(w, frame), later),
{
}

/// A yellow that stays out is not reported again.
pub proof fn a_flag_that_stays_out_is_not_repeated(
    w: SessionWatch,
    first: TelemetryFrame,
    second: TelemetryFrame,
    bit: u32,
)
    requires
        first.session_flags & bit != 0,
    ensures
        !gained(watched(w, first), second.session_flags, bit),
{
}

} // verus!
