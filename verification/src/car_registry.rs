//! Everything that is known of each car on the track.

use std::collections::HashSet;

use vstd::prelude::*;
use vstd::string::*;

use crate::anchor_sampler::{AnchorSampler, SamplerView};
use crate::battle_state::BattleState;
use crate::fixed::{clamp, minus, plus, quotient, Micro, ONE};
use crate::session_info::{CarRefView, SessionRoster};
use crate::telemetry_frame::TelemetryFrame;
use crate::text::decimal_text;

verus! {

/// Slots of the registry.
pub const SLOTS: usize = 64;

/// Ticks after which a car that is not seen any more is forgotten.
pub const EXPIRY_TICKS: i64 = 3600;

/// What a player's history with one opponent amounts to.
#[derive(Debug, Clone, Copy, PartialEq, Eq, Structural)]
pub struct OpponentHistory {
    pub car_idx: u8,
    pub first_seen_lap: u8,
    pub last_engaged_lap: Option<u8>,
    pub last_state_forward: BattleState,
    pub last_state_defensive: BattleState,
    pub time_in_push_s: Micro,
    pub time_in_attack_s: Micro,
    pub skirmish_count: u32,
}

/// What is known of one car.
pub struct CarState {
    pub car_idx: u8,
    pub car_number: String,
    pub driver_name: String,
    pub car_class_id: u32,
    pub current_position: u8,
    pub current_lap: i32,
    pub lap_dist_pct: Micro,
    pub on_pit_road: bool,
    pub track_surface: i32,
    pub last_lap_time_s: Micro,
    pub best_lap_time_s: Micro,
    pub speed_ema_mps: Micro,
    pub sampler: AnchorSampler,
    pub opponent_history: Vec<OpponentHistory>,
}

/// What a [`CarState`] holds.
#[verifier::ext_equal]
pub struct CarView {
    pub car_idx: u8,
    pub car_number: Seq<char>,
    pub driver_name: Seq<char>,
    pub car_class_id: u32,
    pub current_position: u8,
    pub current_lap: i32,
    pub lap_dist_pct: Micro,
    pub on_pit_road: bool,
    pub track_surface: i32,
    pub last_lap_time_s: Micro,
    pub best_lap_time_s: Micro,
    pub speed_ema_mps: Micro,
    pub sampler: SamplerView,
    pub opponent_history: Seq<OpponentHistory>,
}

impl View for CarState {
    type V = CarView;

    open spec fn view(&self) -> CarView {
        CarView {
            car_idx: self.car_idx,
            car_number: self.car_number@,
            driver_name: self.driver_name@,
            car_class_id: self.car_class_id,
            current_position: self.current_position,
            current_lap: self.current_lap,
            lap_dist_pct: self.lap_dist_pct,
            on_pit_road: self.on_pit_road,
            track_surface: self.track_surface,
            last_lap_time_s: self.last_lap_time_s,
            best_lap_time_s: self.best_lap_time_s,
            speed_ema_mps: self.speed_ema_mps,
            sampler: self.sampler@,
            opponent_history: self.opponent_history@,
        }
    }
}

/// What a slot holds.
pub open spec fn slot_view(c: Option<CarState>) -> Option<CarView> {
    match c {
        Some(x) => Some(x@),
        None => None,
    }
}

/// What a registry holds: a car or nothing in each slot, and the tick at which
/// each slot was last seen.
#[verifier::ext_equal]
pub struct RegistryView {
    pub cars: Seq<Option<CarView>>,
    pub last_seen: Seq<i64>,
}

/// Laps of car `i`: its own count, or the player's lap where the frame has none.
pub open spec fn lap_of(frame: TelemetryFrame, i: int) -> i32 {
    if i < frame.car_idx_lap_completed@.len() {
        frame.car_idx_lap_completed@[i]
    } else {
        frame.lap as i32
    }
}

/// Place of car `i` on the lap; no place, or one before the line, is the line.
pub open spec fn place_of(frame: TelemetryFrame, i: int) -> Micro {
    if i < frame.car_idx_lap_dist_pct@.len() && frame.car_idx_lap_dist_pct@[i] > 0 {
        frame.car_idx_lap_dist_pct@[i]
    } else {
        0
    }
}

/// Whether car `i` is on pit road.
pub open spec fn pit_of(frame: TelemetryFrame, i: int) -> bool {
    i < frame.car_idx_on_pit_road@.len() && frame.car_idx_on_pit_road@[i]
}

/// Surface under car `i`.
pub open spec fn surface_of(frame: TelemetryFrame, i: int) -> i32 {
    if i < frame.car_idx_track_surface@.len() {
        frame.car_idx_track_surface@[i]
    } else {
        0
    }
}

/// A car that is seen for the first time.
pub open spec fn fresh_car(frame: TelemetryFrame, i: int, anchor_count: usize) -> CarView {
    CarView {
        car_idx: i as u8,
        car_number: crate::text::decimal(i as nat),
        driver_name: "Car "@ + crate::text::decimal(i as nat),
        car_class_id: 0,
        current_position: frame.car_idx_position@[i],
        current_lap: lap_of(frame, i),
        lap_dist_pct: place_of(frame, i),
        on_pit_road: pit_of(frame, i),
        track_surface: surface_of(frame, i),
        last_lap_time_s: frame.lap_last_lap_time,
        best_lap_time_s: if frame.lap_last_lap_time > 0 {
            frame.lap_last_lap_time
        } else {
            0
        },
        speed_ema_mps: 0,
        sampler: SamplerView { n_buckets: anchor_count, samples: Seq::empty() },
        opponent_history: Seq::empty(),
    }
}

/// A car under the name that the roster has for it.
pub open spec fn named(car: CarView, roster: Map<u8, CarRefView>, i: int) -> CarView {
    if roster.contains_key(i as u8) {
        let r = roster[i as u8];
        CarView {
            car_number: r.car_number,
            driver_name: r.driver_name,
            car_class_id: match r.car_class_id {
                Some(id) => id,
                None => car.car_class_id,
            },
            ..car
        }
    } else {
        car
    }
}

/// A car whose sampler has the anchors that are asked for.
pub open spec fn resampled(car: CarView, anchor_count: usize) -> CarView {
    if car.sampler.n_buckets == anchor_count {
        car
    } else {
        CarView {
            sampler: SamplerView { n_buckets: anchor_count, samples: Seq::empty() },
            ..car
        }
    }
}

/// Laps and part of a lap, in millionths of a lap.
pub open spec fn progress(lap: i32, place: Micro) -> int {
    lap as int * ONE as int + place as int
}

/// How far a car came, in millionths of a lap. A lap count that lags behind the
/// line by most of a lap is taken to be one lap short.
pub open spec fn advance(from: int, to: int) -> int {
    let reached = if to + ONE as int / 2 < from {
        to + ONE
    } else {
        to
    };
    if reached > from {
        reached - from
    } else {
        0
    }
}

/// Speed over `ticks` sixtieths of a second on a lap of five kilometres.
pub open spec fn raw_speed(distance: int, ticks: int) -> Micro {
    crate::fixed::clamped(distance * 300_000 / ticks)
}

/// The running mean speed after one more reading.
pub open spec fn blended(ema: Micro, raw: Micro) -> Micro {
    if ema <= 0 {
        raw
    } else {
        crate::fixed::clamped((raw as int + 9 * ema as int) / 10)
    }
}

/// The best lap after one more lap time; zero stands for none.
pub open spec fn best_of(best: Micro, last: Micro) -> Micro {
    if last > 0 && (best == 0 || last < best) {
        last
    } else {
        best
    }
}

/// Car `i` after a frame that has it.
pub open spec fn seen_car(
    prev: Option<CarView>,
    last_seen: i64,
    frame: TelemetryFrame,
    roster: Map<u8, CarRefView>,
    i: int,
    session_tick: i64,
    anchor_count: usize,
) -> CarView {
    let start = match prev {
        Some(c) => c,
        None => fresh_car(frame, i, anchor_count),
    };
    let car = resampled(named(start, roster, i), anchor_count);
    let ticks = crate::fixed::clamped(session_tick - last_seen);
    let lap = lap_of(frame, i);
    let place = place_of(frame, i);
    let distance = advance(progress(car.current_lap, car.lap_dist_pct), progress(lap, place));
    CarView {
        current_position: frame.car_idx_position@[i],
        current_lap: lap,
        lap_dist_pct: place,
        on_pit_road: pit_of(frame, i),
        track_surface: surface_of(frame, i),
        last_lap_time_s: frame.lap_last_lap_time,
        best_lap_time_s: best_of(car.best_lap_time_s, frame.lap_last_lap_time),
        speed_ema_mps: if ticks > 0 {
            blended(car.speed_ema_mps, raw_speed(distance, ticks as int))
        } else {
            car.speed_ema_mps
        },
        ..car
    }
}

/// Whether the frame has car `i`.
pub open spec fn in_frame(frame: TelemetryFrame, i: int) -> bool {
    crate::telemetry_frame::position_of(frame, i) > 0
}

/// Slot `i` and its tick after a frame: a car that the frame has is updated, one
/// that has not been seen for too long is forgotten, any other slot is kept.
pub open spec fn slot_step(
    reg: RegistryView,
    frame: TelemetryFrame,
    roster: Map<u8, CarRefView>,
    i: int,
    session_tick: i64,
    anchor_count: usize,
) -> (Option<CarView>, i64) {
    if in_frame(frame, i) {
        (
            Some(
                seen_car(
                    reg.cars[i],
                    reg.last_seen[i],
                    frame,
                    roster,
                    i,
                    session_tick,
                    anchor_count,
                ),
            ),
            session_tick,
        )
    } else if reg.cars[i] is Some && crate::fixed::clamped(session_tick - reg.last_seen[i])
        > EXPIRY_TICKS {
        (None, i64::MIN)
    } else {
        (reg.cars[i], reg.last_seen[i])
    }
}

/// The registry after a frame.
pub open spec fn registry_step(
    reg: RegistryView,
    frame: TelemetryFrame,
    roster: Map<u8, CarRefView>,
    session_tick: i64,
    anchor_count: usize,
) -> RegistryView {
    RegistryView {
        cars: Seq::new(
            SLOTS as nat,
            |i: int| slot_step(reg, frame, roster, i, session_tick, anchor_count).0,
        ),
        last_seen: Seq::new(
            SLOTS as nat,
            |i: int| slot_step(reg, frame, roster, i, session_tick, anchor_count).1,
        ),
    }
}

/// The car in a slot, where there is one.
pub open spec fn car_at(reg: RegistryView, car_idx: u8) -> Option<CarView> {
    if car_idx < reg.cars.len() {
        reg.cars[car_idx as int]
    } else {
        None
    }
}

/// Every slot holds the car of its own index.
pub open spec fn slots_match(reg: RegistryView) -> bool {
    forall|i: int|
        0 <= i < reg.cars.len() ==> (#[trigger] reg.cars[i] matches Some(c) ==> c.car_idx == i)
}

/// A registry without cars.
pub open spec fn empty_registry() -> RegistryView {
    RegistryView {
        cars: Seq::new(SLOTS as nat, |i: int| None),
        last_seen: Seq::new(SLOTS as nat, |i: int| i64::MIN),
    }
}

/// Fixed registry of cars, one slot per car index.
pub struct CarRegistry {
    cars: Vec<Option<CarState>>,
    last_seen_tick: Vec<i64>,
}

impl View for CarRegistry {
    type V = RegistryView;

    closed spec fn view(&self) -> RegistryView {
        RegistryView {
            cars: self.cars@.map_values(|c: Option<CarState>| slot_view(c)),
            last_seen: self.last_seen_tick@,
        }
    }
}

impl Default for CarRegistry {
    /// A registry without cars.
    fn default() -> (r: Self)
        ensures
            r.wf(),
            r@ == empty_registry(),
    {
        CarRegistry::new()
    }
}

impl CarRegistry {
    /// There is a slot and a tick for every car index.
    pub closed spec fn wf(self) -> bool {
        self.cars@.len() == SLOTS && self.last_seen_tick@.len() == SLOTS && slots_match(self@)
    }

    /// A registry without cars.
    pub fn new() -> (r: Self)
        ensures
            r.wf(),
            r@ == empty_registry(),
    {
        let mut cars: Vec<Option<CarState>> = Vec::new();
        let mut last_seen_tick: Vec<i64> = Vec::new();
        let mut i: usize = 0;
        while i < SLOTS
            invariant
                i <= SLOTS,
                cars@.len() == i,
                last_seen_tick@.len() == i,
                forall|j: int| 0 <= j < i ==> #[trigger] cars@[j] is None,
                forall|j: int| 0 <= j < i ==> #[trigger] last_seen_tick@[j] == i64::MIN,
            decreases SLOTS - i,
        {
            cars.push(None);
            last_seen_tick.push(i64::MIN);
            i = i + 1;
        }
        let r: CarRegistry = CarRegistry { cars, last_seen_tick };
        assert(r@ =~= empty_registry());
        r
    }

    /// Puts a car into the slot of its index; an index without a slot is ignored.
    pub fn insert(&mut self, car: CarState, session_tick: i64)
        requires
            old(self).wf(),
        ensures
            final(self).wf(),
            final(self)@ == (if car.car_idx < SLOTS {
                RegistryView {
                    cars: old(self)@.cars.update(car.car_idx as int, Some(car@)),
                    last_seen: old(self)@.last_seen.update(car.car_idx as int, session_tick),
                }
            } else {
                old(self)@
            }),
    {
        let idx: usize = car.car_idx as usize;
        if idx < self.cars.len() {
            self.cars.set(idx, Some(car));
            self.last_seen_tick.set(idx, session_tick);
            assert(self@.cars =~= old(self)@.cars.update(car.car_idx as int, Some(car@)));
        }
    }

    /// The car in a slot.
    pub fn get(&self, car_idx: u8) -> (r: Option<&CarState>)
        requires
            self.wf(),
        ensures
            r is Some <==> car_at(self@, car_idx) is Some,
            r matches Some(c) ==> car_at(self@, car_idx) == Some(c@),
    {
        let idx: usize = car_idx as usize;
        if idx < self.cars.len() {
            self.cars[idx].as_ref()
        } else {
            None
        }
    }

    /// The car in a slot, to be changed. The registry stays well formed as long as
    /// the car keeps the index of its slot.
    pub fn get_mut(&mut self, car_idx: u8) -> (r: Option<&mut CarState>)
        requires
            old(self).wf(),
        ensures
            match r {
                Some(c) => car_at(old(self)@, car_idx) == Some(c@) && final(self)@ == (RegistryView {
                    cars: old(self)@.cars.update(car_idx as int, Some(final(c)@)),
                    last_seen: old(self)@.last_seen,
                }),
                None => car_at(old(self)@, car_idx) is None && final(self)@ == old(self)@,
            },
            slots_match(final(self)@) ==> final(self).wf(),
    {
        let idx: usize = car_idx as usize;
        if idx < self.cars.len() {
            match &mut self.cars[idx] {
                Some(c) => Some(c),
                None => None,
            }
        } else {
            None
        }
    }

    /// Updates the registry from a frame: every car that holds a race position is
    /// brought up to date, and cars that have not been seen for a minute go.
    pub fn update_from_frame(
        &mut self,
        frame: &TelemetryFrame,
        roster: &SessionRoster,
        session_tick: i64,
        anchor_count: usize,
    )
        requires
            old(self).wf(),
        ensures
            final(self).wf(),
            final(self)@ == registry_step(
                old(self)@,
                *frame,
                roster@,
                session_tick,
                anchor_count,
            ),
    {
        let ghost before = self@;
        let mut i: usize = 0;
        while i < SLOTS
            invariant
                i <= SLOTS,
                self.wf(),
                before.cars.len() == SLOTS,
                before.last_seen.len() == SLOTS,
                forall|j: int|
                    0 <= j < i ==> #[trigger] self@.cars[j] == slot_step(
                        before,
                        *frame,
                        roster@,
                        j,
                        session_tick,
                        anchor_count,
                    ).0,
                forall|j: int|
                    0 <= j < i ==> #[trigger] self@.last_seen[j] == slot_step(
                        before,
                        *frame,
                        roster@,
                        j,
                        session_tick,
                        anchor_count,
                    ).1,
                forall|j: int| i <= j < SLOTS ==> #[trigger] self@.cars[j] == before.cars[j],
                forall|j: int|
                    i <= j < SLOTS ==> #[trigger] self@.last_seen[j] == before.last_seen[j],
            decreases SLOTS - i,
        {
            let ghost start = self@;
            assert(start.cars[i as int] == slot_view(self.cars@[i as int]));
            let last_seen: i64 = self.last_seen_tick[i];
            let mut slot: Option<CarState> = None;
            std::mem::swap(&mut self.cars[i], &mut slot);
            assert(slot_view(slot) == before.cars[i as int]);
            assert(last_seen == start.last_seen[i as int]);
            if i < frame.car_idx_position.len() && frame.car_idx_position[i] > 0 {
                let car: CarState = updated_car(
                    slot,
                    last_seen,
                    frame,
                    roster,
                    i,
                    session_tick,
                    anchor_count,
                );
                self.cars.set(i, Some(car));
                self.last_seen_tick.set(i, session_tick);
            } else if slot.is_some() && minus(session_tick, last_seen) > EXPIRY_TICKS {
                self.cars.set(i, None);
                self.last_seen_tick.set(i, i64::MIN);
            } else {
                self.cars.set(i, slot);
            }
            proof {
                let after = slot_step(
                    before,
                    *frame,
                    roster@,
                    i as int,
                    session_tick,
                    anchor_count,
                );
                assert(self@.cars =~= start.cars.update(i as int, after.0));
                assert(self@.last_seen =~= start.last_seen.update(i as int, after.1));
            }
            i = i + 1;
        }
        assert(self@ =~= registry_step(before, *frame, roster@, session_tick, anchor_count));
    }

    /// The cars in the registry, by index.
    pub fn active_cars(&self) -> (r: Vec<&CarState>)
        requires
            self.wf(),
        ensures
            r@.map_values(|c: &CarState| c@) == present(self@.cars),
    {
        let mut out: Vec<&CarState> = Vec::new();
        let mut i: usize = 0;
        assert(out@.map_values(|c: &CarState| c@) =~= present(self@.cars.take(0)));
        while i < self.cars.len()
            invariant
                i <= self.cars@.len(),
                self@.cars.len() == self.cars@.len(),
                out@.map_values(|c: &CarState| c@) == present(self@.cars.take(i as int)),
            decreases self.cars.len() - i,
        {
            let ghost before = out@;
            proof {
                assert(self@.cars.take(i + 1).drop_last() =~= self@.cars.take(i as int));
                assert(self@.cars[i as int] == slot_view(self.cars@[i as int]));
            }
            if let Some(c) = self.cars[i].as_ref() {
                out.push(c);
                proof {
                    assert(out@.map_values(|c: &CarState| c@) =~= before.map_values(
                        |c: &CarState| c@,
                    ).push(c@));
                }
            }
            i = i + 1;
        }
        assert(self@.cars.take(i as int) =~= self@.cars);
        out
    }

    /// The history of a car with an opponent, to be changed.
    pub fn find_opponent_history_mut(&mut self, car_idx: u8, opponent_idx: u8) -> (r: Option<
        &mut OpponentHistory,
    >)
        requires
            old(self).wf(),
        ensures
            final(self).wf(),
            match r {
                Some(h) => history_with(old(self)@, car_idx, opponent_idx) == Some(*h)
                    && final(self)@ == with_history(
                    old(self)@,
                    car_idx,
                    opponent_idx,
                    *final(h),
                ),
                None => history_with(old(self)@, car_idx, opponent_idx) is None && final(self)@
                    == old(self)@,
            },
    {
        let ghost before = self@;
        match self.get_mut(car_idx) {
            Some(car) => {
                let ghost car_before = car@;
                let p: usize = find_place(&car.opponent_history, opponent_idx);
                if p < car.opponent_history.len() {
                    Some(&mut car.opponent_history[p])
                } else {
                    assert(before.cars.update(car_idx as int, Some(car_before)) =~= before.cars);
                    None
                }
            },
            None => None,
        }
    }

    /// Skirmishes that a car had with an opponent, and the time it spent setting
    /// up attacks on it.
    pub fn prior_with(&self, car_idx: u8, opponent_idx: u8) -> (r: (u32, Micro))
        requires
            self.wf(),
        ensures
            r == prior_of(self@, car_idx, opponent_idx),
    {
        match self.get(car_idx) {
            Some(car) => {
                let p: usize = find_place(&car.opponent_history, opponent_idx);
                if p < car.opponent_history.len() {
                    (
                        car.opponent_history[p].skirmish_count,
                        car.opponent_history[p].time_in_attack_s,
                    )
                } else {
                    (0, 0)
                }
            },
            None => (0, 0),
        }
    }

    /// Notes the state of a finished lap in the player's history with an opponent,
    /// which begins here where there is none. A player without a slot is ignored.
    pub fn update_opponent_history(
        &mut self,
        player_idx: u8,
        opponent_idx: u8,
        state: &BattleState,
        is_pit_lap: bool,
        lap: u8,
    )
        requires
            old(self).wf(),
        ensures
            final(self).wf(),
            final(self)@ == history_step(
                old(self)@,
                player_idx,
                opponent_idx,
                *state,
                is_pit_lap,
                lap,
            ),
    {
        let ghost before = self@;
        match self.get_mut(player_idx) {
            Some(car) => {
                let ghost car_before = car@;
                let p: usize = find_place(&car.opponent_history, opponent_idx);
                if p == car.opponent_history.len() {
                    car.opponent_history.push(
                        OpponentHistory {
                            car_idx: opponent_idx,
                            first_seen_lap: lap,
                            last_engaged_lap: None,
                            last_state_forward: BattleState::Idle,
                            last_state_defensive: BattleState::Idle,
                            time_in_push_s: 0,
                            time_in_attack_s: 0,
                            skirmish_count: 0,
                        },
                    );
                }
                let mut h: OpponentHistory = car.opponent_history[p];
                if !is_pit_lap {
                    if h.last_state_forward == BattleState::Idle && *state
                        == BattleState::Tracking {
                        h.skirmish_count = h.skirmish_count.saturating_add(1);
                    }
                    if *state == BattleState::Push {
                        h.time_in_push_s = plus(h.time_in_push_s, LAP_SHARE_S);
                    }
                    if *state == BattleState::AttackSetup {
                        h.time_in_attack_s = plus(h.time_in_attack_s, LAP_SHARE_S);
                    }
                }
                h.last_state_forward = *state;
                h.last_engaged_lap = Some(lap);
                car.opponent_history.set(p, h);
                proof {
                    assert(car.opponent_history@ =~= history_after(
                        car_before.opponent_history,
                        opponent_idx,
                        *state,
                        is_pit_lap,
                        lap,
                    ));
                }
            },
            None => {},
        }
    }

    /// How many car classes are on the track.
    pub fn class_count(&self) -> (r: usize)
        requires
            self.wf(),
        ensures
            r == classes(self@.cars).len(),
    {
        broadcast use vstd::std_specs::hash::group_hash_axioms;

        let mut seen: HashSet<u32> = HashSet::new();
        let mut i: usize = 0;
        assert(seen@ =~= classes(self@.cars.take(0)));
        while i < self.cars.len()
            invariant
                i <= self.cars@.len(),
                self@.cars.len() == self.cars@.len(),
                seen@ == classes(self@.cars.take(i as int)),
            decreases self.cars.len() - i,
        {
            proof {
                assert(self@.cars.take(i + 1).drop_last() =~= self@.cars.take(i as int));
                assert(self@.cars[i as int] == slot_view(self.cars@[i as int]));
            }
            if let Some(c) = self.cars[i].as_ref() {
                seen.insert(c.car_class_id);
            }
            i = i + 1;
        }
        assert(self@.cars.take(i as int) =~= self@.cars);
        seen.len()
    }
}

/// Time that a finished lap adds to the state it ended in, in seconds.
pub const LAP_SHARE_S: i64 = 60_000_000;

/// The cars in their slots, by index.
pub open spec fn present(cars: Seq<Option<CarView>>) -> Seq<CarView>
    decreases cars.len(),
{
    if cars.len() == 0 {
        Seq::empty()
    } else {
        let rest = present(cars.drop_last());
        match cars.last() {
            Some(c) => rest.push(c),
            None => rest,
        }
    }
}

/// The classes of the cars.
pub open spec fn classes(cars: Seq<Option<CarView>>) -> Set<u32>
    decreases cars.len(),
{
    if cars.len() == 0 {
        Set::empty()
    } else {
        let rest = classes(cars.drop_last());
        match cars.last() {
            Some(c) => rest.insert(c.car_class_id),
            None => rest,
        }
    }
}

/// First place at or after `from` of the history with an opponent, the length
/// where there is none.
pub open spec fn place_in(h: Seq<OpponentHistory>, opponent_idx: u8, from: int) -> int
    decreases h.len() - from,
{
    if from >= h.len() {
        h.len() as int
    } else if h[from].car_idx == opponent_idx {
        from
    } else {
        place_in(h, opponent_idx, from + 1)
    }
}

fn find_place(h: &Vec<OpponentHistory>, opponent_idx: u8) -> (r: usize)
    ensures
        r == place_in(h@, opponent_idx, 0),
        r <= h@.len(),
{
    let mut p: usize = 0;
    while p < h.len() && h[p].car_idx != opponent_idx
        invariant
            p <= h@.len(),
            place_in(h@, opponent_idx, 0) == place_in(h@, opponent_idx, p as int),
        decreases h.len() - p,
    {
        p = p + 1;
    }
    p
}

/// The history of a car with an opponent.
pub open spec fn history_with(
    reg: RegistryView,
    car_idx: u8,
    opponent_idx: u8,
) -> Option<OpponentHistory> {
    match car_at(reg, car_idx) {
        Some(car) => {
            let p = place_in(car.opponent_history, opponent_idx, 0);
            if p < car.opponent_history.len() {
                Some(car.opponent_history[p])
            } else {
                None
            }
        },
        None => None,
    }
}

/// The registry with that history replaced.
pub open spec fn with_history(
    reg: RegistryView,
    car_idx: u8,
    opponent_idx: u8,
    h: OpponentHistory,
) -> RegistryView {
    let car = reg.cars[car_idx as int]->0;
    RegistryView {
        cars: reg.cars.update(
            car_idx as int,
            Some(
                CarView {
                    opponent_history: car.opponent_history.update(
                        place_in(car.opponent_history, opponent_idx, 0),
                        h,
                    ),
                    ..car
                },
            ),
        ),
        last_seen: reg.last_seen,
    }
}

/// Skirmishes and attack time that the history with an opponent holds.
pub open spec fn prior_of(reg: RegistryView, car_idx: u8, opponent_idx: u8) -> (u32, Micro) {
    match history_with(reg, car_idx, opponent_idx) {
        Some(h) => (h.skirmish_count, h.time_in_attack_s),
        None => (0, 0),
    }
}

/// A history that begins in `lap`.
pub open spec fn first_contact(opponent_idx: u8, lap: u8) -> OpponentHistory {
    OpponentHistory {
        car_idx: opponent_idx,
        first_seen_lap: lap,
        last_engaged_lap: None,
        last_state_forward: BattleState::Idle,
        last_state_defensive: BattleState::Idle,
        time_in_push_s: 0,
        time_in_attack_s: 0,
        skirmish_count: 0,
    }
}

/// A history after one more lap that ended in `state`. A pit lap adds no time
/// and no skirmish.
pub open spec fn noted(
    h: OpponentHistory,
    state: BattleState,
    is_pit_lap: bool,
    lap: u8,
) -> OpponentHistory {
    let skirmish = !is_pit_lap && h.last_state_forward == BattleState::Idle && state
        == BattleState::Tracking;
    OpponentHistory {
        last_engaged_lap: Some(lap),
        last_state_forward: state,
        time_in_push_s: if !is_pit_lap && state == BattleState::Push {
            crate::fixed::clamped(h.time_in_push_s + LAP_SHARE_S)
        } else {
            h.time_in_push_s
        },
        time_in_attack_s: if !is_pit_lap && state == BattleState::AttackSetup {
            crate::fixed::clamped(h.time_in_attack_s + LAP_SHARE_S)
        } else {
            h.time_in_attack_s
        },
        skirmish_count: if skirmish && h.skirmish_count < u32::MAX {
            (h.skirmish_count + 1) as u32
        } else {
            h.skirmish_count
        },
        ..h
    }
}

/// The histories after one more lap against an opponent.
pub open spec fn history_after(
    h: Seq<OpponentHistory>,
    opponent_idx: u8,
    state: BattleState,
    is_pit_lap: bool,
    lap: u8,
) -> Seq<OpponentHistory> {
    let p = place_in(h, opponent_idx, 0);
    if p < h.len() {
        h.update(p, noted(h[p], state, is_pit_lap, lap))
    } else {
        h.push(noted(first_contact(opponent_idx, lap), state, is_pit_lap, lap))
    }
}

/// The registry after one more lap of a player against an opponent.
pub open spec fn history_step(
    reg: RegistryView,
    player_idx: u8,
    opponent_idx: u8,
    state: BattleState,
    is_pit_lap: bool,
    lap: u8,
) -> RegistryView {
    match car_at(reg, player_idx) {
        Some(car) => RegistryView {
            cars: reg.cars.update(
                player_idx as int,
                Some(
                    CarView {
                        opponent_history: history_after(
                            car.opponent_history,
                            opponent_idx,
                            state,
                            is_pit_lap,
                            lap,
                        ),
                        ..car
                    },
                ),
            ),
            last_seen: reg.last_seen,
        },
        None => reg,
    }
}

/// Laps, place, pit road and surface of a car, as a frame has them.
struct Sighting {
    lap: i32,
    place: Micro,
    on_pit_road: bool,
    track_surface: i32,
}

fn sight(frame: &TelemetryFrame, i: usize) -> (r: Sighting)
    ensures
        r.lap == lap_of(*frame, i as int),
        r.place == place_of(*frame, i as int),
        r.on_pit_road == pit_of(*frame, i as int),
        r.track_surface == surface_of(*frame, i as int),
{
    Sighting {
        lap: if i < frame.car_idx_lap_completed.len() {
            frame.car_idx_lap_completed[i]
        } else {
            frame.lap as i32
        },
        place: if i < frame.car_idx_lap_dist_pct.len() && frame.car_idx_lap_dist_pct[i] > 0 {
            frame.car_idx_lap_dist_pct[i]
        } else {
            0
        },
        on_pit_road: i < frame.car_idx_on_pit_road.len() && frame.car_idx_on_pit_road[i],
        track_surface: if i < frame.car_idx_track_surface.len() {
            frame.car_idx_track_surface[i]
        } else {
            0
        },
    }
}

/// A car that is seen for the first time.
fn first_sight(frame: &TelemetryFrame, i: usize, anchor_count: usize) -> (r: CarState)
    requires
        i < SLOTS,
        i < frame.car_idx_position@.len(),
    ensures
        r@ == fresh_car(*frame, i as int, anchor_count),
{
    let seen: Sighting = sight(frame, i);
    let last_lap: Micro = frame.lap_last_lap_time;
    let mut driver_name: String = "Car ".to_owned();
    let digits: String = decimal_text(i as u64);
    driver_name.append(digits.as_str());
    CarState {
        car_idx: i as u8,
        car_number: digits,
        driver_name,
        car_class_id: 0,
        current_position: frame.car_idx_position[i],
        current_lap: seen.lap,
        lap_dist_pct: seen.place,
        on_pit_road: seen.on_pit_road,
        track_surface: seen.track_surface,
        last_lap_time_s: last_lap,
        best_lap_time_s: if last_lap > 0 {
            last_lap
        } else {
            0
        },
        speed_ema_mps: 0,
        sampler: AnchorSampler::new(anchor_count),
        opponent_history: Vec::new(),
    }
}

/// Gives a car the name that the roster has for it, and the anchors that are
/// asked for.
fn identify(car: CarState, roster: &SessionRoster, i: usize, anchor_count: usize) -> (r: CarState)
    requires
        i < SLOTS,
    ensures
        r@ == resampled(named(car@, roster@, i as int), anchor_count),
{
    let mut car: CarState = car;
    if let Some(r) = roster.lookup(i as u8) {
        car.car_number = r.car_number.clone();
        car.driver_name = r.driver_name.clone();
        if let Some(id) = r.car_class_id {
            car.car_class_id = id;
        }
    }
    if car.sampler.n_buckets() != anchor_count {
        car.sampler = AnchorSampler::new(anchor_count);
    }
    car
}

/// Car `i` after a frame that has it.
fn updated_car(
    prev: Option<CarState>,
    last_seen: i64,
    frame: &TelemetryFrame,
    roster: &SessionRoster,
    i: usize,
    session_tick: i64,
    anchor_count: usize,
) -> (r: CarState)
    requires
        i < SLOTS,
        i < frame.car_idx_position@.len(),
    ensures
        r@ == seen_car(
            slot_view(prev),
            last_seen,
            *frame,
            roster@,
            i as int,
            session_tick,
            anchor_count,
        ),
{
    let start: CarState = match prev {
        Some(c) => c,
        None => first_sight(frame, i, anchor_count),
    };
    let mut car: CarState = identify(start, roster, i, anchor_count);
    let seen: Sighting = sight(frame, i);
    let last_lap: Micro = frame.lap_last_lap_time;
    let ticks: i64 = minus(session_tick, last_seen);
    if ticks > 0 {
        let raw: Micro = speed_between(
            car.current_lap,
            car.lap_dist_pct,
            seen.lap,
            seen.place,
            ticks,
        );
        car.speed_ema_mps = if car.speed_ema_mps <= 0 {
            raw
        } else {
            clamp(quotient(raw as i128 + 9 * (car.speed_ema_mps as i128), 10))
        };
    }
    car.current_position = frame.car_idx_position[i];
    car.current_lap = seen.lap;
    car.lap_dist_pct = seen.place;
    car.on_pit_road = seen.on_pit_road;
    car.track_surface = seen.track_surface;
    car.last_lap_time_s = last_lap;
    if last_lap > 0 && (car.best_lap_time_s == 0 || last_lap < car.best_lap_time_s) {
        car.best_lap_time_s = last_lap;
    }
    car
}

/// Speed from one place to another over a number of ticks.
fn speed_between(
    from_lap: i32,
    from_place: Micro,
    to_lap: i32,
    to_place: Micro,
    ticks: i64,
) -> (r: Micro)
    requires
        ticks > 0,
    ensures
        r == raw_speed(
            advance(progress(from_lap, from_place), progress(to_lap, to_place)),
            ticks as int,
        ),
{
    let from: i128 = from_lap as i128 * ONE as i128 + from_place as i128;
    let to: i128 = to_lap as i128 * ONE as i128 + to_place as i128;
    let reached: i128 = if to + ONE as i128 / 2 < from {
        to + ONE as i128
    } else {
        to
    };
    let distance: i128 = if reached > from {
        reached - from
    } else {
        0
    };
    clamp(quotient(distance * 300_000, ticks as i128))
}

/// In a well-formed registry every car stands in the slot of its own index.
pub proof fn every_car_stands_in_its_slot(registry: CarRegistry)
    requires
        registry.wf(),
    ensures
        slots_match(registry@),
        registry@.cars.len() == SLOTS,
{
}

/// The history of a lap leaves every car in the slot of its own index.
pub proof fn histories_keep_slots_matched(
    reg: RegistryView,
    player_idx: u8,
    opponent_idx: u8,
    state: BattleState,
    is_pit_lap: bool,
    lap: u8,
)
    requires
        slots_match(reg),
    ensures
        slots_match(history_step(reg, player_idx, opponent_idx, state, is_pit_lap, lap)),
        history_step(reg, player_idx, opponent_idx, state, is_pit_lap, lap).cars.len()
            == reg.cars.len(),
        history_step(reg, player_idx, opponent_idx, state, is_pit_lap, lap).last_seen
            == reg.last_seen,
{
    let after = history_step(reg, player_idx, opponent_idx, state, is_pit_lap, lap);
    assert forall|i: int| 0 <= i < after.cars.len() implies (#[trigger] after.cars[i] matches Some(
        c,
    ) ==> c.car_idx == i) by {
        assert(reg.cars[i] matches Some(c) ==> c.car_idx == i);
    }
}

/// A frame leaves every car in the slot of its own index.
pub proof fn frames_keep_slots_matched(
    reg: RegistryView,
    frame: TelemetryFrame,
    roster: Map<u8, CarRefView>,
    session_tick: i64,
    anchor_count: usize,
)
    requires
        reg.cars.len() == SLOTS,
        reg.last_seen.len() == SLOTS,
        slots_match(reg),
    ensures
        slots_match(registry_step(reg, frame, roster, session_tick, anchor_count)),
{
    let after = registry_step(reg, frame, roster, session_tick, anchor_count);
    assert forall|i: int| 0 <= i < after.cars.len() implies (#[trigger] after.cars[i] matches Some(
        c,
    ) ==> c.car_idx == i) by {
        let was = reg.cars[i];
    }
}

/// A car that leaves the track for a while keeps its history and its readings.
pub proof fn a_car_that_returns_is_remembered(
    reg: RegistryView,
    frame: TelemetryFrame,
    roster: Map<u8, CarRefView>,
    i: int,
    session_tick: i64,
    anchor_count: usize,
)
    requires
        0 <= i < SLOTS,
        reg.cars.len() == SLOTS,
        reg.last_seen.len() == SLOTS,
        reg.cars[i] is Some,
        session_tick - reg.last_seen[i] <= EXPIRY_TICKS,
    ensures
        registry_step(reg, frame, roster, session_tick, anchor_count).cars[i] matches Some(c)
            && c.opponent_history == reg.cars[i]->0.opponent_history,
{
}

/// A car that is not seen for more than a minute is forgotten.
pub proof fn a_car_that_stays_away_is_forgotten(
    reg: RegistryView,
    frame: TelemetryFrame,
    roster: Map<u8, CarRefView>,
    i: int,
    session_tick: i64,
    anchor_count: usize,
)
    requires
        0 <= i < SLOTS,
        reg.cars.len() == SLOTS,
        reg.last_seen.len() == SLOTS,
        !in_frame(frame, i),
        session_tick - reg.last_seen[i] > EXPIRY_TICKS,
    ensures
        registry_step(reg, frame, roster, session_tick, anchor_count).cars[i] is None,
{
}

/// A best lap time is never given up for a slower one.
pub proof fn best_lap_never_worsens(best: Micro, last: Micro)
    requires
        best > 0,
    ensures
        0 < best_of(best, last) <= best,
{
}

/// How far a frame shows car `i` from where it was, in millionths of a lap.
pub open spec fn moved(car: CarView, frame: TelemetryFrame, i: int) -> int {
    (frame.car_idx_lap_completed@[i] - car.current_lap) * 1_000_000 + (
    frame.car_idx_lap_dist_pct@[i] - car.lap_dist_pct)
}

/// Whether `v` is the speed, in millionths of a metre per second and rounded down, over
/// `d` millionths of a lap of five kilometres in `ticks` sixtieths of a second, as far as
/// it can be held.
pub open spec fn is_speed(v: Micro, d: int, ticks: int) -> bool {
    &&& v >= 0
    &&& v * ticks <= d * 5_000 * 60
    &&& v < i64::MAX ==> d * 5_000 * 60 < (v + 1) * ticks
}

proof fn lemma_raw_speed(d: int, ticks: int)
    requires
        d >= 0,
        ticks > 0,
    ensures
        is_speed(raw_speed(d, ticks), d, ticks),
{
    let x = d * 300_000;
    let q = x / ticks;
    let v = raw_speed(d, ticks) as int;
    assert(q * ticks <= x < (q + 1) * ticks && q >= 0) by (nonlinear_arith)
        requires
            q == x / ticks,
            x >= 0,
            ticks > 0,
    ;
    assert(v * ticks <= q * ticks) by (nonlinear_arith)
        requires
            0 <= v <= q,
            ticks > 0,
    ;
}

/// Whether a frame shows car `i`, with its laps and its place.
pub open spec fn shows(frame: TelemetryFrame, i: int) -> bool {
    &&& 0 <= i < frame.car_idx_position@.len()
    &&& frame.car_idx_position@[i] > 0
    &&& i < frame.car_idx_lap_completed@.len()
    &&& i < frame.car_idx_lap_dist_pct@.len()
    &&& frame.car_idx_lap_dist_pct@[i] >= 0
}

/// A car without a speed that is seen again has the speed of the distance that it came,
/// on a lap of five kilometres, over the ticks since it was last seen. A lap count that
/// falls behind by more than half a lap is taken to lack one lap; any other way back is
/// no distance. Where the tick is not later, a car keeps its speed.
pub proof fn a_speed_is_distance_over_time(
    reg: RegistryView,
    frame: TelemetryFrame,
    roster: Map<u8, CarRefView>,
    i: int,
    session_tick: i64,
    anchor_count: usize,
)
    requires
        0 <= i < 64,
        reg.cars.len() == 64,
        reg.last_seen.len() == 64,
        shows(frame, i),
        reg.cars[i] is Some,
        session_tick - reg.last_seen[i] <= i64::MAX,
    ensures
        ({
            let prev = reg.cars[i]->0;
            let after = registry_step(reg, frame, roster, session_tick, anchor_count).cars[i];
            let v = (after->0).speed_ema_mps;
            let ticks = session_tick - reg.last_seen[i];
            let d = moved(prev, frame, i);
            &&& after is Some
            &&& ticks <= 0 ==> v == prev.speed_ema_mps
            &&& ticks > 0 && prev.speed_ema_mps <= 0 ==> {
                &&& d >= 0 ==> is_speed(v, d, ticks)
                &&& -500_000 <= d < 0 ==> v == 0
                &&& -1_000_000 <= d < -500_000 ==> is_speed(v, d + 1_000_000, ticks)
                &&& d < -1_000_000 ==> v == 0
                &&& d == 1_000_000 && ticks == 6_000 ==> v == 50_000_000
            }
        }),
{
    let prev = reg.cars[i]->0;
    let ticks = session_tick - reg.last_seen[i];
    let d = moved(prev, frame, i);
    let from = progress(prev.current_lap, prev.lap_dist_pct);
    let to = progress(frame.car_idx_lap_completed@[i], frame.car_idx_lap_dist_pct@[i]);
    assert(to - from == d);
    assert(place_of(frame, i) == frame.car_idx_lap_dist_pct@[i]);
    if ticks > 0 {
        let come = advance(from, to);
        lemma_raw_speed(come, ticks);
        if come == 0 {
            let v = raw_speed(come, ticks) as int;
            assert(v == 0) by (nonlinear_arith)
                requires
                    v * ticks <= 0,
                    v >= 0,
                    ticks > 0,
            ;
        }
    }
}

/// A car that has a speed keeps nine tenths of it and takes a tenth of the speed since
/// it was last seen.
pub proof fn a_speed_follows_by_a_tenth(
    reg: RegistryView,
    frame: TelemetryFrame,
    roster: Map<u8, CarRefView>,
    i: int,
    session_tick: i64,
    anchor_count: usize,
) -> (raw: Micro)
    requires
        0 <= i < 64,
        reg.cars.len() == 64,
        reg.last_seen.len() == 64,
        shows(frame, i),
        reg.cars[i] is Some,
        0 < session_tick - reg.last_seen[i] <= i64::MAX,
        (reg.cars[i]->0).speed_ema_mps > 0,
        moved(reg.cars[i]->0, frame, i) >= 0,
    ensures
        is_speed(raw, moved(reg.cars[i]->0, frame, i), session_tick - reg.last_seen[i]),
        ({
            let prev = reg.cars[i]->0;
            let after = registry_step(reg, frame, roster, session_tick, anchor_count).cars[i];
            let v = (after->0).speed_ema_mps;
            after is Some && 10 * v <= 9 * prev.speed_ema_mps + raw < 10 * v + 10
        }),
{
    let prev = reg.cars[i]->0;
    let ticks = session_tick - reg.last_seen[i];
    let d = moved(prev, frame, i);
    let from = progress(prev.current_lap, prev.lap_dist_pct);
    let to = progress(frame.car_idx_lap_completed@[i], frame.car_idx_lap_dist_pct@[i]);
    assert(to - from == d);
    assert(place_of(frame, i) == frame.car_idx_lap_dist_pct@[i]);
    lemma_raw_speed(d, ticks);
    raw_speed(d, ticks)
}

/// A car that a frame shows is as the frame has it: position, laps, place, pit road,
/// surface and last lap time. Its best lap is the least that was seen. Before its first
/// frame it has no speed and no history.
pub proof fn a_car_is_as_the_frame_shows_it(
    reg: RegistryView,
    frame: TelemetryFrame,
    roster: Map<u8, CarRefView>,
    i: int,
    session_tick: i64,
    anchor_count: usize,
)
    requires
        0 <= i < 64,
        reg.cars.len() == 64,
        reg.last_seen.len() == 64,
        shows(frame, i),
        i < frame.car_idx_on_pit_road@.len(),
        i < frame.car_idx_track_surface@.len(),
        reg.cars[i] matches Some(c) ==> c.car_idx == i,
    ensures
        ({
            let after = registry_step(reg, frame, roster, session_tick, anchor_count);
            let c = after.cars[i]->0;
            let last = frame.lap_last_lap_time;
            &&& after.cars[i] is Some
            &&& after.last_seen[i] == session_tick
            &&& c.car_idx == i
            &&& c.current_position == frame.car_idx_position@[i]
            &&& c.current_lap == frame.car_idx_lap_completed@[i]
            &&& c.lap_dist_pct == frame.car_idx_lap_dist_pct@[i]
            &&& c.on_pit_road == frame.car_idx_on_pit_road@[i]
            &&& c.track_surface == frame.car_idx_track_surface@[i]
            &&& c.last_lap_time_s == last
            &&& last > 0 ==> 0 < c.best_lap_time_s <= last || c.best_lap_time_s < 0
            &&& (reg.cars[i] matches Some(p) && p.best_lap_time_s > 0 && last > 0)
                ==> c.best_lap_time_s == last || c.best_lap_time_s
                == reg.cars[i]->0.best_lap_time_s
            &&& (reg.cars[i] matches Some(p) && last <= 0) ==> c.best_lap_time_s
                == reg.cars[i]->0.best_lap_time_s
            &&& reg.cars[i] is None ==> c.opponent_history.len() == 0
            &&& roster.contains_key(i as u8) ==> c.car_number == roster[i as u8].car_number
                && c.driver_name == roster[i as u8].driver_name
        }),
{
}

/// A car that a frame does not show is kept for a minute of sixtieths of a second since
/// it was last seen, as it was, and then forgotten.
pub proof fn a_car_is_kept_for_a_minute(
    reg: RegistryView,
    frame: TelemetryFrame,
    roster: Map<u8, CarRefView>,
    i: int,
    session_tick: i64,
    anchor_count: usize,
)
    requires
        0 <= i < 64,
        reg.cars.len() == 64,
        reg.last_seen.len() == 64,
        i >= frame.car_idx_position@.len() || frame.car_idx_position@[i] == 0,
    ensures
        ({
            let after = registry_step(reg, frame, roster, session_tick, anchor_count);
            if session_tick - reg.last_seen[i] <= 60 * 60 {
                after.cars[i] == reg.cars[i] && after.last_seen[i] == reg.last_seen[i]
            } else {
                after.cars[i] is None
            }
        }),
{
}

/// A lap that ends in a push or an attack adds a minute to the time of that state and to
/// no other; one that ends in tracking after none was followed is one more skirmish. A
/// lap through the pits adds nothing. Whatever the lap was, its state and its number are
/// kept.
pub proof fn a_lap_adds_to_its_own_state(
    h: OpponentHistory,
    state: BattleState,
    is_pit_lap: bool,
    lap: u8,
)
    requires
        0 <= h.time_in_push_s <= 1_000_000_000_000_000,
        0 <= h.time_in_attack_s <= 1_000_000_000_000_000,
        h.skirmish_count < u32::MAX,
    ensures
        ({
            let after = noted(h, state, is_pit_lap, lap);
            &&& after.time_in_push_s - h.time_in_push_s == if state == BattleState::Push
                && !is_pit_lap {
                60_000_000int
            } else {
                0
            }
            &&& after.time_in_attack_s - h.time_in_attack_s == if state
                == BattleState::AttackSetup && !is_pit_lap {
                60_000_000int
            } else {
                0
            }
            &&& after.skirmish_count - h.skirmish_count == if h.last_state_forward
                == BattleState::Idle && state == BattleState::Tracking && !is_pit_lap {
                1int
            } else {
                0
            }
            &&& after.last_state_forward == state
            &&& after.last_engaged_lap == Some(lap)
            &&& after.car_idx == h.car_idx
            &&& after.first_seen_lap == h.first_seen_lap
            &&& after.last_state_defensive == h.last_state_defensive
        }),
{
}

/// The place of an opponent's history is one of that opponent.
proof fn lemma_place_in(h: Seq<OpponentHistory>, opponent_idx: u8, from: int)
    requires
        0 <= from <= h.len(),
    ensures
        from <= place_in(h, opponent_idx, from) <= h.len(),
        place_in(h, opponent_idx, from) < h.len() ==> h[place_in(
            h,
            opponent_idx,
            from,
        )].car_idx == opponent_idx,
        forall|k: int|
            from <= k < place_in(h, opponent_idx, from) ==> (#[trigger] h[k]).car_idx
                != opponent_idx,
    decreases h.len() - from,
{
    if from < h.len() && h[from].car_idx != opponent_idx {
        lemma_place_in(h, opponent_idx, from + 1);
    }
}

/// A lap of the player against an opponent is noted in the history with that opponent,
/// which begins with it where there was none. The histories with others, other cars, and
/// the order stay as they are.
pub proof fn a_lap_is_noted_with_its_opponent(
    reg: RegistryView,
    player_idx: u8,
    opponent_idx: u8,
    other_idx: u8,
    state: BattleState,
    is_pit_lap: bool,
    lap: u8,
)
    requires
        player_idx < reg.cars.len(),
        reg.cars[player_idx as int] is Some,
        other_idx != opponent_idx,
    ensures
        ({
            let after = history_step(reg, player_idx, opponent_idx, state, is_pit_lap, lap);
            &&& history_with(after, player_idx, opponent_idx) == Some(
                noted(
                    match history_with(reg, player_idx, opponent_idx) {
                        Some(h) => h,
                        None => first_contact(opponent_idx, lap),
                    },
                    state,
                    is_pit_lap,
                    lap,
                ),
            )
            &&& history_with(after, player_idx, other_idx) == history_with(
                reg,
                player_idx,
                other_idx,
            )
            &&& forall|i: int|
                0 <= i < reg.cars.len() && i != player_idx ==> #[trigger] after.cars[i]
                    == reg.cars[i]
        }),
{
    let before = reg.cars[player_idx as int]->0.opponent_history;
    let after = history_after(before, opponent_idx, state, is_pit_lap, lap);
    lemma_place_in(before, opponent_idx, 0);
    lemma_place_in(after, opponent_idx, 0);
    lemma_place_in(before, other_idx, 0);
    lemma_place_in(after, other_idx, 0);
    let p = place_in(before, opponent_idx, 0);
    let q = place_in(after, opponent_idx, 0);
    assert(after[p].car_idx == opponent_idx);
    if q < p {
        assert(after[q] == before[q]);
    }
    let x = place_in(before, other_idx, 0);
    let y = place_in(after, other_idx, 0);
    if y < x && y < before.len() {
        assert(after[y].car_idx == before[y].car_idx);
    }
    if x < y && x < before.len() {
        assert(after[x].car_idx == before[x].car_idx);
    }
    if y < after.len() {
        assert(y != p);
    }
}

/// A car that is seen for the first time has the frame's values, no speed, no readings and
/// no history; where the roster does not know it, it is known by its index.
pub proof fn a_new_car_is_known_by_its_index(
    reg: RegistryView,
    frame: TelemetryFrame,
    roster: Map<u8, CarRefView>,
    i: int,
    session_tick: i64,
    anchor_count: usize,
)
    requires
        0 <= i < 64,
        reg.cars.len() == 64,
        reg.last_seen.len() == 64,
        shows(frame, i),
        reg.cars[i] is None,
    ensures
        ({
            let after = registry_step(reg, frame, roster, session_tick, anchor_count).cars[i];
            let c = after->0;
            let last = frame.lap_last_lap_time;
            &&& after is Some
            &&& c.car_idx == i
            &&& c.speed_ema_mps == 0
            &&& c.sampler.samples.len() == 0 && c.sampler.n_buckets == anchor_count
            &&& c.opponent_history.len() == 0
            &&& last > 0 ==> c.best_lap_time_s == last
            &&& last <= 0 ==> c.best_lap_time_s == 0
            &&& !roster.contains_key(i as u8) ==> {
                &&& c.car_number == crate::text::decimal(i as nat)
                &&& c.driver_name == "Car "@ + crate::text::decimal(i as nat)
                &&& c.car_class_id == 0
            }
            &&& roster.contains_key(i as u8) ==> {
                &&& c.car_number == roster[i as u8].car_number
                &&& c.driver_name == roster[i as u8].driver_name
                &&& roster[i as u8].car_class_id is Some ==> c.car_class_id
                    == roster[i as u8].car_class_id->0
            }
        }),
{
    let from = progress(frame.car_idx_lap_completed@[i], frame.car_idx_lap_dist_pct@[i]);
    assert(place_of(frame, i) == frame.car_idx_lap_dist_pct@[i]);
    assert(advance(from, from) == 0);
    let ticks = crate::fixed::clamped(session_tick - reg.last_seen[i]) as int;
    if ticks > 0 {
        assert(0int / ticks == 0) by (nonlinear_arith)
            requires
                ticks > 0,
        ;
    }
}

/// A class is on the track exactly where a car of it is.
pub proof fn a_class_is_there_with_its_cars(cars: Seq<Option<CarView>>, class: u32)
    ensures
        classes(cars).contains(class) <==> exists|i: int|
            0 <= i < cars.len() && (#[trigger] cars[i]) is Some && (cars[i]->0).car_class_id
                == class,
        classes(cars).finite(),
    decreases cars.len(),
{
    if cars.len() > 0 {
        let front = cars.drop_last();
        let n = cars.len() - 1;
        a_class_is_there_with_its_cars(front, class);
        assert(cars[n] == cars.last());
        if classes(front).contains(class) {
            let i = choose|i: int|
                0 <= i < front.len() && (#[trigger] front[i]) is Some && (
                front[i]->0).car_class_id == class;
            assert(cars[i] == front[i]);
        }
        if exists|i: int|
            0 <= i < cars.len() && (#[trigger] cars[i]) is Some && (cars[i]->0).car_class_id
                == class {
            let i = choose|i: int|
                0 <= i < cars.len() && (#[trigger] cars[i]) is Some && (cars[i]->0).car_class_id
                    == class;
            if i < n {
                assert(front[i] == cars[i]);
            }
        }
    }
}

} // verus!
