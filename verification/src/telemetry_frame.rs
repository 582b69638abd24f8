//! One decoded snapshot of the simulator.

use vstd::prelude::*;

use crate::fixed::Micro;

verus! {

/// A single decoded telemetry frame from the iRacing session stream.
///
/// The `car_idx_*` vectors are indexed by car index. They may differ in length;
/// a missing entry reads as the default that each reader names.
pub struct TelemetryFrame {
    pub lap: u8,
    pub session_time: Micro,
    pub lap_dist_pct: Micro,
    pub player_car_idx: u8,
    /// 1-based; 0 = not yet classified.
    pub player_car_position: u8,
    pub on_pit_road: bool,
    pub session_flags: u32,
    /// Values below minus one half are inactive slots.
    pub car_idx_lap_dist_pct: Vec<Micro>,
    /// 0 = inactive.
    pub car_idx_position: Vec<u8>,
    pub car_idx_on_pit_road: Vec<bool>,
    pub car_idx_track_surface: Vec<i32>,
    /// Elapsed time of the last completed lap; 0 until one is done.
    pub lap_last_lap_time: Micro,
    /// Counts changes of the session description.
    pub session_info_update: u32,
    pub session_tick: i64,
    /// 4 = racing, 5 = checkered, 6 = cool-down.
    pub session_state: i32,
    pub session_num: i32,
    pub player_incident_count: i32,
    pub car_idx_lap_completed: Vec<i32>,
    pub lf_temp_m: Micro,
    pub rf_temp_m: Micro,
    pub lr_temp_m: Micro,
    pub rr_temp_m: Micro,
    pub fuel_level: Micro,
    pub throttle: Micro,
    pub brake: Micro,
    pub speed: Micro,
}

/// Race position of car `i`, 0 where the frame names none.
pub open spec fn position_of(frame: TelemetryFrame, i: int) -> u8 {
    if 0 <= i < frame.car_idx_position@.len() {
        frame.car_idx_position@[i]
    } else {
        0
    }
}

impl TelemetryFrame {
    /// Race position of `car_idx`, 0 where the frame names none.
    pub fn position(&self, car_idx: u8) -> (r: u8)
        ensures
            r == position_of(*self, car_idx as int),
    {
        let i: usize = car_idx as usize;
        if i < self.car_idx_position.len() {
            self.car_idx_position[i]
        } else {
            0
        }
    }
}

} // verus!
