//! Publisher lifecycle events: PUBLISHER_HELLO / PUBLISHER_HEARTBEAT /
//! PUBLISHER_GOODBYE.

use vstd::prelude::*;
use vstd::string::*;

use crate::fixed::Micro;
use crate::race_event::RaceEvent;

verus! {

/// What a [`LifecyclePublisher`] holds.
#[verifier::ext_equal]
pub struct LifecycleView {
    pub version: String,
    pub fresh: bool,
}

/// The hello of a publisher.
pub open spec fn hello(p: LifecycleView, lap: u8, session_time: Micro) -> RaceEvent {
    RaceEvent::PublisherHello { lap, session_time, version: p.version, scope: "driver" }
}

/// A heartbeat of a publisher.
pub open spec fn beat(
    p: LifecycleView,
    lap: u8,
    session_time: Micro,
    events_enqueued_total: u64,
) -> RaceEvent {
    RaceEvent::PublisherHeartbeat { lap, session_time, version: p.version, events_enqueued_total }
}

/// The goodbye of a publisher that shuts down.
pub open spec fn goodbye(lap: u8, session_time: Micro) -> RaceEvent {
    RaceEvent::PublisherGoodbye {
        lap,
        session_time,
        reason: "shutdown",
        previous_sub_session_id: None,
    }
}

/// The goodbye of a publisher that leaves a sub-session for another one.
pub open spec fn farewell(lap: u8, session_time: Micro, left: i64) -> RaceEvent {
    RaceEvent::PublisherGoodbye {
        lap,
        session_time,
        reason: "session_transition",
        previous_sub_session_id: Some(left),
    }
}

/// Manages publisher lifecycle events.
///
/// Create one instance at startup, call [`on_activate`] after successful
/// token acquisition, and [`on_deactivate`] on clean shutdown.
///
/// [`on_activate`]: LifecyclePublisher::on_activate
/// [`on_deactivate`]: LifecyclePublisher::on_deactivate
pub struct LifecyclePublisher {
    version: String,
    fresh: bool,
}

impl View for LifecyclePublisher {
    type V = LifecycleView;

    closed spec fn view(&self) -> LifecycleView {
        LifecycleView { version: self.version, fresh: self.fresh }
    }
}

impl LifecyclePublisher {
    /// Create a lifecycle publisher.
    pub fn new(version: &str) -> (r: Self)
        ensures
            r@.version@ == version@,
            r@.fresh,
    {
        LifecyclePublisher { version: version.to_owned(), fresh: true }
    }

    /// `true` if `on_activate` has not yet been called on this instance.
    /// The publisher loop uses this to know when to emit `PUBLISHER_HELLO`.
    pub fn is_fresh(&self) -> (r: bool)
        ensures
            r == self@.fresh,
    {
        self.fresh
    }

    /// Emit `PUBLISHER_HELLO` — call once after successful registration.
    pub fn on_activate(&mut self, lap: u8, session_time: Micro) -> (r: RaceEvent)
        ensures
            final(self)@ == (LifecycleView { fresh: false, ..old(self)@ }),
            r == hello(old(self)@, lap, session_time),
    {
        self.fresh = false;
        RaceEvent::PublisherHello {
            lap,
            session_time,
            version: self.version.clone(),
            scope: "driver",
        }
    }

    /// Emit `PUBLISHER_GOODBYE` — call on clean shutdown.
    pub fn on_deactivate(&self, lap: u8, session_time: Micro) -> (r: RaceEvent)
        ensures
            r == goodbye(lap, session_time),
    {
        RaceEvent::PublisherGoodbye {
            lap,
            session_time,
            reason: "shutdown",
            previous_sub_session_id: None,
        }
    }

    /// Emit `PUBLISHER_GOODBYE` — call when the simulator goes over to another
    /// sub-session.
    pub fn on_transition(&self, lap: u8, session_time: Micro, left: i64) -> (r: RaceEvent)
        ensures
            r == farewell(lap, session_time, left),
    {
        RaceEvent::PublisherGoodbye {
            lap,
            session_time,
            reason: "session_transition",
            previous_sub_session_id: Some(left),
        }
    }

    /// Emit `PUBLISHER_HEARTBEAT` — call on the heartbeat timer while connected.
    pub fn heartbeat(
        &self,
        lap: u8,
        session_time: Micro,
        events_enqueued_total: u64,
    ) -> (r: RaceEvent)
        ensures
            r == beat(self@, lap, session_time, events_enqueued_total),
    {
        RaceEvent::PublisherHeartbeat {
            lap,
            session_time,
            version: self.version.clone(),
            events_enqueued_total,
        }
    }
}

/// What a [`HeartbeatScheduler`] holds: the interval, where there is one, and
/// when the timer was last set.
#[verifier::ext_equal]
pub struct SchedulerView {
    pub interval_ms: Option<u64>,
    pub last_ms: Option<u64>,
}

/// Milliseconds from one instant to another, none where the clock ran back.
pub open spec fn elapsed(from: u64, to: u64) -> int {
    if to > from {
        to - from
    } else {
        0
    }
}

/// Whether the timer fires at `now`.
pub open spec fn fires(s: SchedulerView, now_ms: u64) -> bool {
    s.interval_ms matches Some(i) && s.last_ms matches Some(l) && elapsed(l, now_ms) >= i
}

/// The timer after it was asked at `now`: it is set where it fires or runs for
/// the first time.
pub open spec fn asked(s: SchedulerView, now_ms: u64) -> SchedulerView {
    if s.interval_ms is Some && (s.last_ms is None || fires(s, now_ms)) {
        SchedulerView { last_ms: Some(now_ms), ..s }
    } else {
        s
    }
}

/// Wall-clock scheduler for `PUBLISHER_HEARTBEAT` emission.
///
/// An interval of `0` disables heartbeats entirely. The first heartbeat is
/// due one full interval after the first [`due`] call (HELLO covers startup).
/// Instants are milliseconds of a clock that does not run back.
///
/// [`due`]: HeartbeatScheduler::due
pub struct HeartbeatScheduler {
    interval_ms: Option<u64>,
    last_ms: Option<u64>,
}

impl View for HeartbeatScheduler {
    type V = SchedulerView;

    closed spec fn view(&self) -> SchedulerView {
        SchedulerView { interval_ms: self.interval_ms, last_ms: self.last_ms }
    }
}

impl HeartbeatScheduler {
    /// Create a scheduler firing every `interval_ms` milliseconds; `0` disables.
    pub fn new(interval_ms: u64) -> (r: Self)
        ensures
            r@ == (SchedulerView {
                interval_ms: if interval_ms > 0 {
                    Some(interval_ms)
                } else {
                    None
                },
                last_ms: None,
            }),
    {
        HeartbeatScheduler {
            interval_ms: if interval_ms > 0 {
                Some(interval_ms)
            } else {
                None
            },
            last_ms: None,
        }
    }

    /// `true` when a heartbeat is due at `now_ms`; advances the timer when it
    /// fires.
    pub fn due(&mut self, now_ms: u64) -> (r: bool)
        ensures
            r == fires(old(self)@, now_ms),
            final(self)@ == asked(old(self)@, now_ms),
    {
        let interval: u64 = match self.interval_ms {
            Some(i) => i,
            None => {
                return false;
            },
        };
        match self.last_ms {
            None => {
                self.last_ms = Some(now_ms);
                false
            },
            Some(last) => {
                if now_ms.saturating_sub(last) >= interval {
                    self.last_ms = Some(now_ms);
                    true
                } else {
                    false
                }
            },
        }
    }
}

/// A scheduler without an interval never fires, and stays without one.
pub proof fn zero_interval_never_fires(s: SchedulerView, now_ms: u64)
    requires
        s.interval_ms is None,
    ensures
        !fires(s, now_ms),
        asked(s, now_ms) == s,
{
}

/// The first call never fires: it starts the timer.
pub proof fn the_first_call_starts_the_timer(s: SchedulerView, now_ms: u64, interval_ms: u64)
    requires
        s.interval_ms == Some(interval_ms),
        s.last_ms is None,
    ensures
        !fires(s, now_ms),
        asked(s, now_ms).last_ms == Some(now_ms),
{
}

/// After the timer was set it fires at the first call that is a full interval
/// later, and at none before.
pub proof fn fires_one_interval_later(
    s: SchedulerView,
    set_at: u64,
    now_ms: u64,
    interval_ms: u64,
)
    requires
        s.interval_ms == Some(interval_ms),
        s.last_ms == Some(set_at),
        interval_ms > 0,
    ensures
        fires(s, now_ms) <==> now_ms >= set_at + interval_ms,
        fires(s, now_ms) ==> asked(s, now_ms).last_ms == Some(now_ms),
        !fires(s, now_ms) ==> asked(s, now_ms) == s,
{
}

/// What a publisher says of itself: hello with its version and its part, a heartbeat with
/// its version and the number of events, goodbye with the reason, and of a sub-session
/// that it leaves also which one that is.
pub proof fn what_a_publisher_says_of_itself(
    p: LifecycleView,
    lap: u8,
    session_time: Micro,
    total: u64,
    left: i64,
)
    ensures
        hello(p, lap, session_time) == (RaceEvent::PublisherHello {
            lap,
            session_time,
            version: p.version,
            scope: "driver",
        }),
        beat(p, lap, session_time, total) == (RaceEvent::PublisherHeartbeat {
            lap,
            session_time,
            version: p.version,
            events_enqueued_total: total,
        }),
        goodbye(lap, session_time) == (RaceEvent::PublisherGoodbye {
            lap,
            session_time,
            reason: "shutdown",
            previous_sub_session_id: None,
        }),
        farewell(lap, session_time, left) == (RaceEvent::PublisherGoodbye {
            lap,
            session_time,
            reason: "session_transition",
            previous_sub_session_id: Some(left),
        }),
{
}

} // verus!
