//! What the status window shows: texts and the colours they are shown in.

use vstd::prelude::*;
use vstd::string::*;

use crate::publisher_status::{EventLogEntry, PublisherStatus};
use crate::text::{
    begins_with, push_decimal, push_one_decimal, push_padded_left, push_padded_right, integer_text,
};

verus! {

/// A colour of the window.
#[derive(Debug, Clone, Copy, PartialEq, Eq, Structural)]
pub enum Colour {
    Green,
    Amber,
    Red,
    Grey,
    Cyan,
    White,
    LightGrey,
    Dim,
}

/// Headline of the Race Control block.
pub open spec fn rc_headline(
    calls_total: u64,
    rc_connected: bool,
    last: Option<u16>,
) -> (Colour, &'static str) {
    if calls_total == 0 {
        (Colour::Grey, "WAITING")
    } else if rc_connected {
        (Colour::Green, "CONNECTED")
    } else if last == Some(401u16) || last == Some(403u16) {
        (Colour::Red, "AUTH FAILED")
    } else if last matches Some(c) && c >= 500 {
        (Colour::Amber, "RETRYING")
    } else {
        (Colour::Amber, "DEGRADED")
    }
}

/// Headline of the Race Control block.
pub fn rc_status(s: &PublisherStatus) -> (r: (Colour, &'static str))
    ensures
        r == rc_headline(s.calls_total, s.rc_connected, s.rc_last_http_status),
{
    if s.calls_total == 0 {
        return (Colour::Grey, "WAITING");
    }
    if s.rc_connected {
        return (Colour::Green, "CONNECTED");
    }
    match s.rc_last_http_status {
        Some(c) => if c == 401 || c == 403 {
            (Colour::Red, "AUTH FAILED")
        } else if c >= 500 {
            (Colour::Amber, "RETRYING")
        } else {
            (Colour::Amber, "DEGRADED")
        },
        None => (Colour::Amber, "DEGRADED"),
    }
}

/// Headline of the iRacing block.
pub fn iracing_status(s: &PublisherStatus) -> (r: (Colour, &'static str))
    ensures
        r == (if s.iracing_connected {
            (Colour::Green, "CONNECTED")
        } else {
            (Colour::Grey, "WAITING FOR SIMULATOR")
        }),
{
    if s.iracing_connected {
        (Colour::Green, "CONNECTED")
    } else {
        (Colour::Grey, "WAITING FOR SIMULATOR")
    }
}

/// A text, or a dash where there is none.
pub open spec fn or_dash(s: Option<String>) -> Seq<char> {
    match s {
        Some(t) => t@,
        None => "—"@,
    }
}

fn push_or_dash(out: &mut String, s: &Option<String>)
    ensures
        final(out)@ == old(out)@ + or_dash(*s),
{
    match s {
        Some(t) => out.append(t.as_str()),
        None => out.append("—"),
    }
}

/// Track, session and lap.
pub fn session_line(s: &PublisherStatus) -> (r: String)
    ensures
        r@ == or_dash(s.track_name) + "  ·  "@ + or_dash(s.session_type) + "  ·  Lap "@
            + crate::text::decimal(s.current_lap as nat) + "  /  "@ + or_dash(s.session_laps),
{
    let mut out: String = String::new();
    push_or_dash(&mut out, &s.track_name);
    out.append("  ·  ");
    push_or_dash(&mut out, &s.session_type);
    out.append("  ·  Lap ");
    push_decimal(&mut out, s.current_lap as u64);
    out.append("  /  ");
    push_or_dash(&mut out, &s.session_laps);
    assert(Seq::<char>::empty() + or_dash(s.track_name) =~= or_dash(s.track_name));
    out
}

/// Sub-session, tick and clock, where the sub-session is known.
pub fn sub_session_line(s: &PublisherStatus) -> (r: Option<String>)
    ensures
        match s.sub_session_id {
            Some(sid) => r matches Some(t) && t@ == "SubSession #"@ + crate::text::integer(
                sid as int,
            ) + "  ·  Tick "@ + crate::text::integer(s.session_tick as int) + "  ·  t="@
                + crate::text::one_decimal(s.session_time_secs) + "s"@,
            None => r is None,
        },
{
    match s.sub_session_id {
        Some(sid) => {
            let mut out: String = "SubSession #".to_owned();
            let id: String = integer_text(sid);
            out.append(id.as_str());
            out.append("  ·  Tick ");
            let tick: String = integer_text(s.session_tick);
            out.append(tick.as_str());
            out.append("  ·  t=");
            push_one_decimal(&mut out, s.session_time_secs);
            out.append("s");
            Some(out)
        },
        None => None,
    }
}

/// How long the token lasts: amber in its last five minutes, red once it is over.
pub fn token_line(expires_at: u64, now_s: u64) -> (r: (String, Colour))
    ensures
        expires_at < now_s ==> r.0@ == "Token expired"@ && r.1 == Colour::Red,
        expires_at >= now_s ==> r.0@ == "Token expires in "@ + crate::text::decimal(
            ((expires_at - now_s) / 60) as nat,
        ) + " min"@ && r.1 == (if expires_at - now_s < 300 {
            Colour::Amber
        } else {
            Colour::Dim
        }),
{
    if expires_at < now_s {
        ("Token expired".to_owned(), Colour::Red)
    } else {
        let left: u64 = expires_at - now_s;
        let mut out: String = "Token expires in ".to_owned();
        push_decimal(&mut out, left / 60);
        out.append(" min");
        (
            out,
            if left < 300 {
                Colour::Amber
            } else {
                Colour::Dim
            },
        )
    }
}

/// The last response: amber where it was not an acceptance.
pub fn response_line(code: u16) -> (r: (String, Colour))
    ensures
        r.0@ == "Last response: "@ + crate::text::decimal(code as nat),
        r.1 == (if code == 200 || code == 201 || code == 202 {
            Colour::Dim
        } else {
            Colour::Amber
        }),
{
    let mut out: String = "Last response: ".to_owned();
    push_decimal(&mut out, code as u64);
    (
        out,
        if code == 200 || code == 201 || code == 202 {
            Colour::Dim
        } else {
            Colour::Amber
        },
    )
}

/// The three counters: events, calls, and errors, these amber where there are any.
pub fn counter_lines(s: &PublisherStatus) -> (r: (String, String, String, Colour))
    ensures
        r.0@ == "Total: "@ + crate::text::decimal(s.events_enqueued_total as nat),
        r.1@ == "Calls: "@ + crate::text::decimal(s.calls_total as nat),
        r.2@ == "Errors: "@ + crate::text::decimal(s.calls_failed as nat),
        r.3 == (if s.calls_failed > 0 {
            Colour::Amber
        } else {
            Colour::Dim
        }),
{
    let mut total: String = "Total: ".to_owned();
    push_decimal(&mut total, s.events_enqueued_total);
    let mut calls: String = "Calls: ".to_owned();
    push_decimal(&mut calls, s.calls_total);
    let mut errors: String = "Errors: ".to_owned();
    push_decimal(&mut errors, s.calls_failed);
    (
        total,
        calls,
        errors,
        if s.calls_failed > 0 {
            Colour::Amber
        } else {
            Colour::Dim
        },
    )
}

/// Colour of an event family, and whether it is bold.
pub open spec fn family_colour(event_type: Seq<char>) -> (Colour, bool) {
    if "BATTLE_"@.is_prefix_of(event_type) {
        (Colour::Amber, false)
    } else if event_type == "OVERTAKE"@ || event_type == "POSITION_LOST"@ {
        (Colour::Green, false)
    } else if "PIT_"@.is_prefix_of(event_type) {
        (Colour::Cyan, false)
    } else if event_type == "RACE_GREEN"@ || event_type == "RACE_CHECKERED"@ {
        (Colour::White, true)
    } else if event_type == "LAP_COMPLETED"@ {
        (Colour::LightGrey, false)
    } else {
        (Colour::Dim, false)
    }
}

/// Colour of an event family, and whether it is bold.
pub fn event_colour(event_type: &str) -> (r: (Colour, bool))
    ensures
        r == family_colour(event_type@),
{
    let name: String = event_type.to_owned();
    if begins_with(event_type, "BATTLE_") {
        (Colour::Amber, false)
    } else if name == "OVERTAKE".to_owned() || name == "POSITION_LOST".to_owned() {
        (Colour::Green, false)
    } else if begins_with(event_type, "PIT_") {
        (Colour::Cyan, false)
    } else if name == "RACE_GREEN".to_owned() || name == "RACE_CHECKERED".to_owned() {
        (Colour::White, true)
    } else if name == "LAP_COMPLETED".to_owned() {
        (Colour::LightGrey, false)
    } else {
        (Colour::Dim, false)
    }
}

/// One row of the event log.
pub fn event_row(entry: &EventLogEntry) -> (r: String)
    ensures
        r@ == "t="@ + crate::text::padded_left(crate::text::one_decimal(entry.session_time), 7)
            + "  "@ + crate::text::padded_right(entry.event_type@, 24) + "  #"@
            + entry.car_number@ + " "@ + entry.driver_name@,
{
    let mut out: String = "t=".to_owned();
    let mut time: String = String::new();
    push_one_decimal(&mut time, entry.session_time);
    assert(time@ =~= crate::text::one_decimal(entry.session_time));
    push_padded_left(&mut out, time.as_str(), 7);
    out.append("  ");
    push_padded_right(&mut out, entry.event_type.as_str(), 24);
    out.append("  #");
    out.append(entry.car_number.as_str());
    out.append(" ");
    out.append(entry.driver_name.as_str());
    out
}

/// The footer: where the configuration came from.
pub fn footer(path: &str) -> (r: String)
    ensures
        r@ == "publisher.toml  ·  "@ + path@,
{
    let mut out: String = "publisher.toml  ·  ".to_owned();
    out.append(path);
    out
}

/// Before the first call Race Control is waited for; a call that went through shows it
/// connected. A call that did not is a failure of authority where the reply was 401 or
/// 403, is tried again where the reply was one of the server's own, and is degraded
/// otherwise.
pub proof fn the_headline_goes_by_the_last_call(calls: u64, connected: bool, last: Option<u16>)
    ensures
        calls == 0 ==> rc_headline(calls, connected, last) == (Colour::Grey, "WAITING"),
        calls > 0 && connected ==> rc_headline(calls, connected, last) == (
            Colour::Green,
            "CONNECTED",
        ),
        calls > 0 && !connected && last is None ==> rc_headline(calls, connected, last) == (
            Colour::Amber,
            "DEGRADED",
        ),
        calls > 0 && !connected && last is Some ==> {
            let code = last->0;
            &&& code == 401 || code == 403 ==> rc_headline(calls, connected, last) == (
                Colour::Red,
                "AUTH FAILED",
            )
            &&& code >= 500 ==> rc_headline(calls, connected, last) == (Colour::Amber, "RETRYING")
            &&& code < 500 && code != 401 && code != 403 ==> rc_headline(calls, connected, last)
                == (Colour::Amber, "DEGRADED")
        },
{
}

} // verus!
