//! Frames and events as a JavaScript host passes them.

use vstd::prelude::*;
use vstd::string::*;

use crate::fixed::Micro;
use crate::json::{Field, Fields, Json, JsonView, Record};
use crate::payload::fields_of;
use crate::race_event::RaceEvent;
use crate::telemetry_frame::TelemetryFrame;
use crate::text::snake_to_camel;

verus! {

/// Telemetry frame received from the host, whose numbers are wider than the
/// engine's.
pub struct JsFrame {
    pub lap: u32,
    pub session_time: Micro,
    pub lap_dist_pct: Micro,
    pub player_car_idx: u32,
    pub player_car_position: u32,
    pub on_pit_road: bool,
    pub session_flags: u32,
    pub car_idx_lap_dist_pct: Vec<Micro>,
    pub car_idx_position: Vec<u32>,
    pub car_idx_on_pit_road: Vec<bool>,
}

/// The low byte of a number.
pub open spec fn low_byte(x: u32) -> u8 {
    (x % 256) as u8
}

fn narrowed(x: u32) -> (r: u8)
    ensures
        r == low_byte(x),
{
    (x % 256) as u8
}

/// The engine's frame for a host's: numbers lose what does not fit, and what the
/// host does not send is zero or empty.
pub fn into_core_frame(js: JsFrame) -> (r: TelemetryFrame)
    ensures
        r.lap == low_byte(js.lap),
        r.session_time == js.session_time,
        r.lap_dist_pct == js.lap_dist_pct,
        r.player_car_idx == low_byte(js.player_car_idx),
        r.player_car_position == low_byte(js.player_car_position),
        r.on_pit_road == js.on_pit_road,
        r.session_flags == js.session_flags,
        r.car_idx_lap_dist_pct == js.car_idx_lap_dist_pct,
        r.car_idx_position@ == js.car_idx_position@.map_values(|x: u32| low_byte(x)),
        r.car_idx_on_pit_road == js.car_idx_on_pit_road,
        r.car_idx_track_surface@.len() == 0,
        r.car_idx_lap_completed@.len() == 0,
        r.lap_last_lap_time == 0,
        r.session_info_update == 0,
        r.session_tick == 0,
        r.session_state == 0,
        r.session_num == 0,
        r.player_incident_count == 0,
        r.lf_temp_m == 0,
        r.rf_temp_m == 0,
        r.lr_temp_m == 0,
        r.rr_temp_m == 0,
        r.fuel_level == 0,
        r.throttle == 0,
        r.brake == 0,
        r.speed == 0,
{
    let mut positions: Vec<u8> = Vec::new();
    let mut i: usize = 0;
    while i < js.car_idx_position.len()
        invariant
            i <= js.car_idx_position@.len(),
            positions@ == js.car_idx_position@.take(i as int).map_values(|x: u32| low_byte(x)),
        decreases js.car_idx_position.len() - i,
    {
        let ghost before = positions@;
        positions.push(narrowed(js.car_idx_position[i]));
        proof {
            assert(positions@ =~= js.car_idx_position@.take(i + 1).map_values(
                |x: u32| low_byte(x),
            ));
        }
        i = i + 1;
    }
    assert(js.car_idx_position@.take(i as int) =~= js.car_idx_position@);
    TelemetryFrame {
        lap: narrowed(js.lap),
        session_time: js.session_time,
        lap_dist_pct: js.lap_dist_pct,
        player_car_idx: narrowed(js.player_car_idx),
        player_car_position: narrowed(js.player_car_position),
        on_pit_road: js.on_pit_road,
        session_flags: js.session_flags,
        car_idx_lap_dist_pct: js.car_idx_lap_dist_pct,
        car_idx_position: positions,
        car_idx_on_pit_road: js.car_idx_on_pit_road,
        car_idx_track_surface: Vec::new(),
        lap_last_lap_time: 0,
        session_info_update: 0,
        session_tick: 0,
        session_state: 0,
        session_num: 0,
        player_incident_count: 0,
        car_idx_lap_completed: Vec::new(),
        lf_temp_m: 0,
        rf_temp_m: 0,
        lr_temp_m: 0,
        rr_temp_m: 0,
        fuel_level: 0,
        throttle: 0,
        brake: 0,
        speed: 0,
    }
}

/// A narrative event for the host.
pub struct JsEvent {
    pub event_type: String,
    pub lap: u32,
    pub session_time: Micro,
    /// The other fields of the event, in `camelCase`.
    pub narrative_context: Json,
}

/// Whether a field stands outside the context.
pub open spec fn is_head(key: Seq<char>) -> bool {
    key == "lap"@ || key == "session_time"@
}

/// The context of an event: its fields but for lap and session time, in
/// `camelCase` throughout.
pub open spec fn context_fields(f: Fields) -> Fields
    decreases f.len(),
{
    if f.len() == 0 {
        Seq::empty()
    } else {
        let rest = context_fields(f.drop_last());
        let (key, value) = f.last();
        if is_head(key) {
            rest
        } else {
            rest.push((crate::text::camel(key), crate::json::camel_view(value)))
        }
    }
}

/// Whether the host's event says what the engine's says.
pub open spec fn tells(js: JsEvent, event: RaceEvent) -> bool {
    &&& js.event_type@ == crate::race_event::wire_text(crate::race_event::kind_of(event))
    &&& js.lap == crate::race_event::lap_of(event)
    &&& js.session_time == crate::race_event::time_of(event)
    &&& js.narrative_context@ == JsonView::Object(
        context_fields(crate::payload::event_fields(event)),
    )
}

/// The host's event for an engine's.
pub fn into_js_event(event: &RaceEvent) -> (r: JsEvent)
    ensures
        tells(r, *event),
{
    let f: Record = fields_of(event);
    let lap: String = "lap".to_owned();
    let session_time: String = "session_time".to_owned();
    let mut out: Record = Record::new();
    let mut i: usize = 0;
    assert(f@.take(0) =~= Fields::empty());
    while i < f.len()
        invariant
            i <= f@.len(),
            lap@ == "lap"@,
            session_time@ == "session_time"@,
            out@ == context_fields(f@.take(i as int)),
        decreases f@.len() - i,
    {
        let field: &Field = f.field(i);
        proof {
            assert(f@.take(i + 1).drop_last() =~= f@.take(i as int));
            assert(f@.take(i + 1).last() == (field.key@, field.value@));
        }
        if field.key != lap && field.key != session_time {
            let key: String = snake_to_camel(field.key.as_str());
            out.push(key.as_str(), field.value.camel_keys());
        }
        i = i + 1;
    }
    assert(f@.take(i as int) =~= f@);
    JsEvent {
        event_type: event.kind().event_type(),
        lap: event.lap() as u32,
        session_time: event.session_time(),
        narrative_context: out.into_json(),
    }
}

/// The context has every field of an event but the lap and the session time, in their
/// order, under its `camelCase` name.
pub proof fn the_context_has_every_other_field(f: Fields, k: int)
    requires
        0 <= k < f.len(),
    ensures
        context_fields(f).len() <= f.len(),
        f[k].0 != "lap"@ && f[k].0 != "session_time"@ ==> context_fields(f).contains(
            (crate::text::camel(f[k].0), crate::json::camel_view(f[k].1)),
        ),
    decreases f.len(),
{
    let front = f.drop_last();
    let n = f.len() - 1;
    let rest = context_fields(front);
    let all = context_fields(f);
    let x = (crate::text::camel(f[k].0), crate::json::camel_view(f[k].1));
    if k < n {
        the_context_has_every_other_field(front, k);
        assert(front[k] == f[k]);
        if rest.contains(x) {
            let j = choose|j: int| 0 <= j < rest.len() && rest[j] == x;
            assert(all[j] == x);
        }
    } else {
        if n > 0 {
            the_context_has_every_other_field(front, 0);
        }
        if f[k].0 != "lap"@ && f[k].0 != "session_time"@ {
            assert(all[rest.len() as int] == x);
        }
    }
}

/// A number that fits in a byte is kept; any other loses what does not fit.
pub proof fn a_byte_is_kept(x: u32)
    ensures
        x <= 255 ==> low_byte(x) == x,
        (x - low_byte(x)) % 256 == 0,
{
}

} // verus!
