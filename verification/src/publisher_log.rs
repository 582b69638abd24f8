//! What the publisher says on its console, and what it is told at its start.

use vstd::prelude::*;
use vstd::string::*;

use crate::publisher_event::resolve_car;
use crate::race_event::RaceEvent;
use crate::session_info::{CarRef, CarRefView, SessionRoster};
use crate::telemetry_frame::TelemetryFrame;
use crate::text::{push_decimal, push_one_decimal};

verus! {

/// Number of a car: the roster's, or its index.
pub open spec fn number_of(idx: u8, roster: Map<u8, CarRefView>) -> Seq<char> {
    crate::publisher_event::resolved(idx, roster).car_number
}

fn push_number(s: &mut String, idx: u8, roster: Option<&SessionRoster>)
    ensures
        final(s)@ == old(s)@ + number_of(idx, crate::publisher_event::roster_view(roster)),
{
    let car: CarRef = resolve_car(idx, roster);
    s.append(car.car_number.as_str());
}

/// The console line of a notable event, `None` for the others.
pub open spec fn line_of(
    event: RaceEvent,
    roster: Map<u8, CarRefView>,
    frame: TelemetryFrame,
) -> Option<Seq<char>> {
    let player = number_of(frame.player_car_idx, roster);
    match event {
        RaceEvent::RaceGreen { .. } => Some("[publisher] RACE_GREEN — lap 1 underway"@),
        RaceEvent::RaceCheckered { .. } => Some("[publisher] RACE_CHECKERED"@),
        RaceEvent::FlagYellowFullCourse { .. } => Some("[publisher] FLAG_YELLOW_FULL_COURSE"@),
        RaceEvent::FlagYellowLocal { .. } => Some("[publisher] FLAG_YELLOW_LOCAL"@),
        RaceEvent::BattleEngaged { opponent_car_idx, gap_s, .. } => Some(
            "[publisher] BATTLE_ENGAGED — #"@ + player + " vs #"@ + number_of(
                opponent_car_idx,
                roster,
            ) + ", gap "@ + crate::text::one_decimal(gap_s) + "s"@,
        ),
        RaceEvent::BattleClosing { opponent_car_idx, closing_rate_sec_per_lap, .. } => Some(
            "[publisher] BATTLE_CLOSING — #"@ + player + " vs #"@ + number_of(
                opponent_car_idx,
                roster,
            ) + ", closing "@ + crate::text::one_decimal(closing_rate_sec_per_lap) + "s/lap"@,
        ),
        RaceEvent::Overtake { position_to, .. } => Some(
            "[publisher] OVERTAKE — #"@ + player + " P"@ + crate::text::decimal(
                position_to as nat,
            ),
        ),
        RaceEvent::OvertakeForLead { .. } => Some(
            "[publisher] OVERTAKE_FOR_LEAD — #"@ + player + " leads"@,
        ),
        _ => None,
    }
}

/// A concise log line for notable narrative events.
pub fn log_event(event: &RaceEvent, roster: Option<&SessionRoster>, frame: &TelemetryFrame) -> (r:
    Option<String>)
    ensures
        crate::session_info::opt_view(r) == line_of(
            *event,
            crate::publisher_event::roster_view(roster),
            *frame,
        ),
{
    match event {
        RaceEvent::RaceGreen { .. } => Some(
            "[publisher] RACE_GREEN — lap 1 underway".to_owned(),
        ),
        RaceEvent::RaceCheckered { .. } => Some("[publisher] RACE_CHECKERED".to_owned()),
        RaceEvent::FlagYellowFullCourse { .. } => Some(
            "[publisher] FLAG_YELLOW_FULL_COURSE".to_owned(),
        ),
        RaceEvent::FlagYellowLocal { .. } => Some("[publisher] FLAG_YELLOW_LOCAL".to_owned()),
        RaceEvent::BattleEngaged { opponent_car_idx, gap_s, .. } => {
            let mut s: String = "[publisher] BATTLE_ENGAGED — #".to_owned();
            push_number(&mut s, frame.player_car_idx, roster);
            s.append(" vs #");
            push_number(&mut s, *opponent_car_idx, roster);
            s.append(", gap ");
            push_one_decimal(&mut s, *gap_s);
            s.append("s");
            Some(s)
        },
        RaceEvent::BattleClosing { opponent_car_idx, closing_rate_sec_per_lap, .. } => {
            let mut s: String = "[publisher] BATTLE_CLOSING — #".to_owned();
            push_number(&mut s, frame.player_car_idx, roster);
            s.append(" vs #");
            push_number(&mut s, *opponent_car_idx, roster);
            s.append(", closing ");
            push_one_decimal(&mut s, *closing_rate_sec_per_lap);
            s.append("s/lap");
            Some(s)
        },
        RaceEvent::Overtake { position_to, .. } => {
            let mut s: String = "[publisher] OVERTAKE — #".to_owned();
            push_number(&mut s, frame.player_car_idx, roster);
            s.append(" P");
            push_decimal(&mut s, *position_to as u64);
            Some(s)
        },
        RaceEvent::OvertakeForLead { .. } => {
            let mut s: String = "[publisher] OVERTAKE_FOR_LEAD — #".to_owned();
            push_number(&mut s, frame.player_car_idx, roster);
            s.append(" leads");
            Some(s)
        },
        _ => None,
    }
}

/// The line that greets a connection: the car by number and driver, or by index
/// where the roster does not have it.
pub open spec fn greeting(roster: Map<u8, CarRefView>, player_car_idx: u8) -> Seq<char> {
    if roster.contains_key(player_car_idx) {
        let car = roster[player_car_idx];
        "[publisher] connected — car=#"@ + car.car_number + " "@ + car.driver_name
    } else {
        "[publisher] connected — carIdx="@ + crate::text::decimal(player_car_idx as nat)
    }
}

/// The line that greets a connection.
pub fn connected_line(roster: Option<&SessionRoster>, player_car_idx: u8) -> (r: String)
    ensures
        r@ == greeting(crate::publisher_event::roster_view(roster), player_car_idx),
{
    if let Some(known) = roster {
        if let Some(car) = known.lookup(player_car_idx) {
            let mut s: String = "[publisher] connected — car=#".to_owned();
            s.append(car.car_number.as_str());
            s.append(" ");
            s.append(car.driver_name.as_str());
            return s;
        }
    }
    let mut s: String = "[publisher] connected — carIdx=".to_owned();
    push_decimal(&mut s, player_car_idx as u64);
    s
}

/// Identity of this rig: the computer's name in small letters.
pub fn rig_id_for(computer_name: Option<&str>) -> (r: String)
    ensures
        r@ == (match computer_name {
            Some(n) => "rig-"@ + crate::text::lower_text(n@),
            None => "rig-unknown"@,
        }),
{
    match computer_name {
        Some(n) => {
            let mut s: String = "rig-".to_owned();
            let name: String = n.to_lowercase();
            s.append(name.as_str());
            s
        },
        None => "rig-unknown".to_owned(),
    }
}

/// Place of the first `--config` that has something behind it, from `from` on.
pub open spec fn config_flag(args: Seq<Seq<char>>, from: int) -> Option<int>
    decreases args.len() - from,
{
    if from + 1 >= args.len() {
        None
    } else if args[from] == "--config"@ {
        Some(from)
    } else {
        config_flag(args, from + 1)
    }
}

/// The path behind `--config` on the command line.
pub fn parse_config_path(args: &Vec<String>) -> (r: Option<String>)
    ensures
        crate::session_info::opt_view(r) == (match config_flag(
            args@.map_values(|s: String| s@),
            0,
        ) {
            Some(i) => Some(args@[i + 1]@),
            None => None,
        }),
{
    let flag: String = "--config".to_owned();
    let ghost views = args@.map_values(|s: String| s@);
    let mut i: usize = 0;
    while i < args.len() && i + 1 < args.len()
        invariant
            i <= args@.len(),
            flag@ == "--config"@,
            views == args@.map_values(|s: String| s@),
            config_flag(views, 0) == config_flag(views, i as int),
        decreases args.len() - i,
    {
        assert(views[i as int] == args@[i as int]@);
        if args[i] == flag {
            return Some(args[i + 1].clone());
        }
        i = i + 1;
    }
    None
}

/// The path is what stands behind the first flag for it that has something behind it;
/// where none is found no argument but the last is the flag.
pub proof fn the_first_flag_counts(args: Seq<Seq<char>>, from: int)
    requires
        0 <= from,
    ensures
        match config_flag(args, from) {
            Some(i) => {
                &&& from <= i
                &&& i + 1 < args.len()
                &&& args[i] == "--config"@
                &&& forall|j: int| from <= j < i ==> #[trigger] args[j] != "--config"@
            },
            None => forall|j: int| from <= j < args.len() - 1 ==> #[trigger] args[j] != "--config"@,
        },
    decreases args.len() - from,
{
    if from + 1 < args.len() && args[from] != "--config"@ {
        the_first_flag_counts(args, from + 1);
    }
}

} // verus!
