//! Shared state between the publisher pipeline thread and the UI thread.

use std::collections::VecDeque;

use vstd::prelude::*;

use crate::fixed::Micro;

verus! {

/// Maximum number of entries retained in the event log.
pub const EVENT_LOG_CAPACITY: usize = 50;

/// One row in the rolling event log panel.
#[derive(Debug, Clone, PartialEq)]
pub struct EventLogEntry {
    pub session_time: Micro,
    pub event_type: String,
    pub car_number: String,
    pub driver_name: String,
}

/// Written by the publisher pipeline thread; read by the UI render loop.
pub struct PublisherStatus {
    pub iracing_connected: bool,
    pub sub_session_id: Option<i64>,
    pub track_name: Option<String>,
    pub session_type: Option<String>,
    /// "unlimited" or a lap count string.
    pub session_laps: Option<String>,
    pub current_lap: u8,
    pub session_tick: i64,
    pub session_time_secs: Micro,
    pub rc_last_http_status: Option<u16>,
    pub rc_connected: bool,
    /// Seconds since the Unix epoch.
    pub token_expires_at: Option<u64>,
    pub events_enqueued_total: u64,
    pub calls_total: u64,
    pub calls_failed: u64,
    /// Newest first.
    pub event_log: VecDeque<EventLogEntry>,
    pub config_path: Option<String>,
}

/// What came of the time to send.
#[derive(Debug, Clone, Copy, PartialEq, Eq, Structural)]
pub enum FlushOutcome {
    /// There was nothing to send.
    Nothing,
    /// What there was has been sent.
    Posted,
    /// Sending failed.
    Failed,
}

/// A counter with one more, held at the end of its range.
pub open spec fn one_more(n: u64) -> u64 {
    if n == u64::MAX {
        n
    } else {
        (n + 1) as u64
    }
}

/// The log with an entry in front of it; a full log gives up its oldest one.
pub open spec fn logged(log: Seq<EventLogEntry>, entry: EventLogEntry) -> Seq<EventLogEntry> {
    seq![entry] + if log.len() >= EVENT_LOG_CAPACITY {
        log.drop_last()
    } else {
        log
    }
}

impl Default for PublisherStatus {
    /// Nothing is connected and nothing has happened.
    fn default() -> (r: Self)
        ensures
            !r.iracing_connected,
            r.sub_session_id is None,
            r.track_name is None,
            r.session_type is None,
            r.session_laps is None,
            r.current_lap == 0,
            r.session_tick == 0,
            r.session_time_secs == 0,
            r.rc_last_http_status is None,
            !r.rc_connected,
            r.token_expires_at is None,
            r.events_enqueued_total == 0,
            r.calls_total == 0,
            r.calls_failed == 0,
            r.event_log@.len() == 0,
            r.config_path is None,
    {
        PublisherStatus {
            iracing_connected: false,
            sub_session_id: None,
            track_name: None,
            session_type: None,
            session_laps: None,
            current_lap: 0,
            session_tick: 0,
            session_time_secs: 0,
            rc_last_http_status: None,
            rc_connected: false,
            token_expires_at: None,
            events_enqueued_total: 0,
            calls_total: 0,
            calls_failed: 0,
            event_log: VecDeque::new(),
            config_path: None,
        }
    }
}

impl PublisherStatus {
    /// Takes note of what came of the time to send: a call is counted where there was
    /// something to send, a failure where it failed, and which of the two it was says
    /// whether Race Control can be reached.
    pub fn record_flush(&mut self, outcome: FlushOutcome)
        ensures
            *final(self) == (match outcome {
                FlushOutcome::Nothing => *old(self),
                FlushOutcome::Posted => (PublisherStatus {
                    calls_total: one_more(old(self).calls_total),
                    rc_connected: true,
                    ..*old(self)
                }),
                FlushOutcome::Failed => (PublisherStatus {
                    calls_total: one_more(old(self).calls_total),
                    calls_failed: one_more(old(self).calls_failed),
                    rc_connected: false,
                    ..*old(self)
                }),
            }),
    {
        match outcome {
            FlushOutcome::Nothing => {},
            FlushOutcome::Posted => {
                self.calls_total = self.calls_total.saturating_add(1);
                self.rc_connected = true;
            },
            FlushOutcome::Failed => {
                self.calls_total = self.calls_total.saturating_add(1);
                self.calls_failed = self.calls_failed.saturating_add(1);
                self.rc_connected = false;
            },
        }
    }

    /// Append an entry to the event log, evicting the oldest if at capacity.
    pub fn push_event_log(&mut self, entry: EventLogEntry)
        ensures
            final(self).event_log@ == logged(old(self).event_log@, entry),
            *final(self) == (PublisherStatus { event_log: final(self).event_log, ..*old(self) }),
    {
        if self.event_log.len() >= EVENT_LOG_CAPACITY {
            self.event_log.pop_back();
        }
        self.event_log.push_front(entry);
        proof {
            let log = old(self).event_log@;
            if log.len() >= EVENT_LOG_CAPACITY {
                assert(log.subrange(0, log.len() - 1) =~= log.drop_last());
            }
        }
    }
}

/// A log within its capacity stays within it, the newest entry is in front, and
/// the others follow in their order.
pub proof fn the_log_rolls(log: Seq<EventLogEntry>, entry: EventLogEntry)
    requires
        log.len() <= EVENT_LOG_CAPACITY,
    ensures
        logged(log, entry).len() <= EVENT_LOG_CAPACITY,
        logged(log, entry)[0] == entry,
        forall|i: int|
            1 <= i < logged(log, entry).len() ==> #[trigger] logged(log, entry)[i] == log[i - 1],
{
}

/// The log holds the fifty newest entries: it grows by one up to fifty and no further.
pub proof fn the_log_holds_fifty_entries(log: Seq<EventLogEntry>, entry: EventLogEntry)
    requires
        log.len() <= 50,
    ensures
        logged(log, entry).len() == if log.len() < 50 {
            log.len() + 1
        } else {
            50
        },
        logged(log, entry)[0] == entry,
{
}

} // verus!
