//! A live session: the engine with the anchors that the track asks for.
//!
//! The engine starts with the anchors of a long lap. The first frame that knows a
//! lap time settles the number, and the engine is rebuilt where it differs.

use vstd::prelude::*;

use crate::engine::{engine_events, engine_step, fresh_engine, EngineView, NarrativeEngine};
use crate::fixed::Micro;
use crate::js_event::{into_js_event, JsEvent};
use crate::race_event::RaceEvent;
use crate::replay::anchor_count_for;
use crate::telemetry_frame::TelemetryFrame;

verus! {

/// Anchors until the first completed lap time is known: a Nürburgring Combined
/// lap at one anchor per five seconds.
pub const DEFAULT_ANCHOR_COUNT: usize = 108;

/// What a [`LiveEngine`] holds.
#[verifier::ext_equal]
pub struct LiveView {
    pub engine: EngineView,
    pub bootstrapped: bool,
}

/// Whether a frame settles the number of anchors.
pub open spec fn settles(v: LiveView, frame: TelemetryFrame) -> bool {
    !v.bootstrapped && frame.lap_last_lap_time > 0
}

/// The engine that a frame is given to.
pub open spec fn engine_for(v: LiveView, frame: TelemetryFrame) -> EngineView {
    let n = crate::replay::anchors_of(frame.lap_last_lap_time);
    if settles(v, frame) && n != v.engine.anchor_count {
        fresh_engine(n)
    } else {
        v.engine
    }
}

/// The session after a frame.
pub open spec fn live_step(v: LiveView, frame: TelemetryFrame) -> LiveView {
    LiveView {
        engine: engine_step(engine_for(v, frame), frame),
        bootstrapped: v.bootstrapped || frame.lap_last_lap_time > 0,
    }
}

/// A live session.
pub struct LiveEngine {
    engine: NarrativeEngine,
    anchor_count: usize,
    bootstrapped: bool,
}

impl View for LiveEngine {
    type V = LiveView;

    closed spec fn view(&self) -> LiveView {
        LiveView { engine: self.engine@, bootstrapped: self.bootstrapped }
    }
}

impl LiveEngine {
    /// The engine is well formed and has the anchors that are remembered.
    pub closed spec fn wf(self) -> bool {
        self.engine.wf() && self.engine@.anchor_count == self.anchor_count
    }

    /// A session that has seen no frame.
    pub fn new(anchor_count: usize) -> (r: Self)
        requires
            anchor_count > 0,
        ensures
            r.wf(),
            r@ == (LiveView { engine: fresh_engine(anchor_count), bootstrapped: false }),
    {
        LiveEngine { engine: NarrativeEngine::new(anchor_count), anchor_count, bootstrapped: false }
    }

    /// Takes in one frame and gives its events.
    pub fn on_frame(&mut self, frame: &TelemetryFrame) -> (r: Vec<RaceEvent>)
        requires
            old(self).wf(),
        ensures
            final(self).wf(),
            final(self)@ == live_step(old(self)@, *frame),
            r@ == engine_events(engine_for(old(self)@, *frame), *frame),
    {
        if !self.bootstrapped && frame.lap_last_lap_time > 0 {
            let computed: usize = anchor_count_for(frame.lap_last_lap_time);
            if computed != self.anchor_count {
                self.anchor_count = computed;
                self.engine = NarrativeEngine::new(computed);
            }
            self.bootstrapped = true;
        }
        self.engine.process_frame(frame)
    }

    /// Takes in one frame and gives its events for a JavaScript host.
    pub fn on_frame_js(&mut self, frame: &TelemetryFrame) -> (r: Vec<JsEvent>)
        requires
            old(self).wf(),
        ensures
            final(self).wf(),
            final(self)@ == live_step(old(self)@, *frame),
            r@.len() == engine_events(engine_for(old(self)@, *frame), *frame).len(),
            forall|i: int|
                0 <= i < r@.len() ==> crate::js_event::tells(
                    #[trigger] r@[i],
                    engine_events(engine_for(old(self)@, *frame), *frame)[i],
                ),
    {
        let events: Vec<RaceEvent> = self.on_frame(frame);
        let mut out: Vec<JsEvent> = Vec::new();
        let mut i: usize = 0;
        while i < events.len()
            invariant
                i <= events@.len(),
                out@.len() == i,
                forall|k: int|
                    0 <= k < i ==> crate::js_event::tells(#[trigger] out@[k], events@[k]),
            decreases events.len() - i,
        {
            out.push(into_js_event(&events[i]));
            i = i + 1;
        }
        out
    }
}

/// The number of anchors is settled once: a later frame never rebuilds the
/// engine.
pub proof fn anchors_are_settled_once(v: LiveView, first: TelemetryFrame, second: TelemetryFrame)
    requires
        first.lap_last_lap_time > 0,
    ensures
        !settles(live_step(v, first), second),
        engine_for(live_step(v, first), second) == live_step(v, first).engine,
{
}

/// The first frame with a lap time gives the engine one anchor for every five seconds of
/// it, ten at least; before that frame and after it the number stays.
pub proof fn the_first_lap_time_settles_the_anchors(v: LiveView, frame: TelemetryFrame)
    requires
        frame.lap_last_lap_time <= 5_000_000_000_000_000,
    ensures
        ({
            let n = live_step(v, frame).engine.anchor_count;
            let t = frame.lap_last_lap_time;
            &&& t > 0 && !v.bootstrapped ==> {
                &&& n >= 10
                &&& t >= 55_000_000 ==> n * 5_000_000 <= t < (n + 1) * 5_000_000
                &&& t < 55_000_000 ==> n == 10
            }
            &&& t <= 0 || v.bootstrapped ==> n == v.engine.anchor_count
            &&& live_step(v, frame).bootstrapped <==> v.bootstrapped || t > 0
        }),
{
    crate::replay::one_anchor_every_five_seconds(frame.lap_last_lap_time);
}

/// A session that starts has the anchors of a lap of nine minutes.
pub proof fn a_session_starts_with_a_long_lap()
    ensures
        DEFAULT_ANCHOR_COUNT == crate::replay::anchors_of(540_000_000),
        DEFAULT_ANCHOR_COUNT * 5 == 9 * 60,
{
}

} // verus!
