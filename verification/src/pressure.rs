//! The pressure of one direction: readings, slopes, and the state they stand for.

use vstd::prelude::*;

use crate::anchor_sampler::{AnchorSampler, SamplerView};
use crate::battle_state::{classify, BattleState, Classification, MIN_PUSH_READINGS};
use crate::fixed::{clamp, Micro};
use crate::race_event::RaceEvent;
use crate::rank::Numbered;
use crate::regression_store::{CarSlopeInfo, RegressionStore};
use crate::telemetry_frame::TelemetryFrame;

verus! {

/// What a [`Pressure`] holds.
#[verifier::ext_equal]
pub struct PressureView {
    pub sampler: SamplerView,
    pub state: BattleState,
    pub prev_slope: Option<Micro>,
}

/// The readings after all rivals of a frame were sampled.
pub open spec fn sampled_all(
    s: SamplerView,
    rivals: Seq<Numbered>,
    lap: u8,
    lap_dist_pct: Micro,
    is_clean: bool,
) -> SamplerView
    decreases rivals.len(),
{
    if rivals.len() == 0 {
        s
    } else {
        crate::anchor_sampler::sampled(
            sampled_all(s, rivals.drop_last(), lap, lap_dist_pct, is_clean),
            lap,
            lap_dist_pct,
            rivals.last().1,
            rivals.last().0,
            is_clean,
        )
    }
}

/// What the readings up to a finished lap amount to.
pub open spec fn assessed(p: PressureView, done_lap: u8, is_pit_lap: bool) -> Classification {
    let m = crate::regression_store::grouped(p.sampler.samples, done_lap);
    crate::battle_state::classified(
        crate::regression_store::car_summaries(m, MIN_PUSH_READINGS, 256),
        crate::regression_store::bucket_slopes(m, MIN_PUSH_READINGS, 256),
        p.sampler.n_buckets,
        p.prev_slope,
        is_pit_lap,
    )
}

/// The direction after a finished lap.
pub open spec fn pressed(p: PressureView, c: Classification) -> PressureView {
    PressureView {
        state: c.state,
        prev_slope: match c.slope_info {
            Some(i) => Some(i.median_slope),
            None => p.prev_slope,
        },
        ..p
    }
}

/// Whether a car starts to close in: the state is new and one of the two that
/// stand for closing.
pub open spec fn closes_in(p: PressureView, c: Classification) -> bool {
    c.state != p.state && (c.state == BattleState::Push || c.state == BattleState::AttackSetup)
        && c.threat_car is Some && c.slope_info is Some
}

/// Size of a slope.
pub open spec fn size_of(slope: Micro) -> Micro {
    crate::fixed::clamped(
        if slope < 0 {
            -slope
        } else {
            slope as int
        },
    )
}

/// The event of a car that starts to close in.
pub open spec fn closing_event(
    frame: TelemetryFrame,
    done_lap: u8,
    c: Classification,
    prior: (u32, Micro),
) -> RaceEvent {
    let car = c.threat_car->0;
    let info = c.slope_info->0;
    RaceEvent::BattleClosing {
        lap: done_lap,
        session_time: frame.session_time,
        player_car_idx: frame.player_car_idx,
        opponent_car_idx: car,
        car_race_position: crate::telemetry_frame::position_of(frame, car as int),
        closing_rate_sec_per_lap: size_of(info.median_slope),
        slope_info: info,
        prior_skirmishes: prior.0,
        prior_attack_time_s: prior.1,
    }
}

/// A direction without readings.
pub open spec fn no_pressure(anchor_count: usize) -> PressureView {
    PressureView {
        sampler: SamplerView { n_buckets: anchor_count, samples: Seq::empty() },
        state: BattleState::Idle,
        prev_slope: None,
    }
}

/// One direction of the player's battles.
pub struct Pressure {
    sampler: AnchorSampler,
    regression: RegressionStore,
    state: BattleState,
    prev_slope: Option<Micro>,
}

impl View for Pressure {
    type V = PressureView;

    closed spec fn view(&self) -> PressureView {
        PressureView {
            sampler: self.sampler@,
            state: self.state,
            prev_slope: self.prev_slope,
        }
    }
}

impl Pressure {
    /// A direction without readings.
    pub fn new(anchor_count: usize) -> (r: Self)
        ensures
            r@ == no_pressure(anchor_count),
    {
        Pressure {
            sampler: AnchorSampler::new(anchor_count),
            regression: RegressionStore::new(),
            state: BattleState::Idle,
            prev_slope: None,
        }
    }

    /// Takes a reading of every rival.
    pub fn sample(
        &mut self,
        rivals: &Vec<Numbered>,
        lap: u8,
        lap_dist_pct: Micro,
        is_clean: bool,
    )
        requires
            old(self)@.sampler.n_buckets > 0,
        ensures
            final(self)@ == (PressureView {
                sampler: sampled_all(
                    old(self)@.sampler,
                    rivals@,
                    lap,
                    lap_dist_pct,
                    is_clean,
                ),
                ..old(self)@
            }),
    {
        let ghost before = self@;
        let mut i: usize = 0;
        assert(sampled_all(before.sampler, rivals@.take(0), lap, lap_dist_pct, is_clean)
            == before.sampler);
        while i < rivals.len()
            invariant
                i <= rivals@.len(),
                self@.sampler.n_buckets > 0,
                self@ == (PressureView {
                    sampler: sampled_all(
                        before.sampler,
                        rivals@.take(i as int),
                        lap,
                        lap_dist_pct,
                        is_clean,
                    ),
                    ..before
                }),
            decreases rivals.len() - i,
        {
            let (car_idx, gap_s): Numbered = rivals[i];
            proof {
                assert(rivals@.take(i + 1).drop_last() =~= rivals@.take(i as int));
            }
            self.sampler.update(lap, lap_dist_pct, gap_s, car_idx, is_clean);
            i = i + 1;
        }
        assert(rivals@.take(i as int) =~= rivals@);
    }

    /// Classifies the direction from the readings up to a finished lap. Says
    /// whether a car starts to close in.
    pub fn assess(&mut self, done_lap: u8, is_pit_lap: bool) -> (r: (Classification, bool))
        requires
            old(self)@.sampler.n_buckets > 0,
        ensures
            r.0 == assessed(old(self)@, done_lap, is_pit_lap),
            r.1 == closes_in(old(self)@, r.0),
            final(self)@ == pressed(old(self)@, r.0),
    {
        self.regression.ingest(&self.sampler, done_lap);
        let per_bucket: Vec<Numbered> = self.regression.per_bucket_slopes(MIN_PUSH_READINGS);
        let medians: Vec<(u8, CarSlopeInfo)> = self.regression.per_car_median_slopes(
            MIN_PUSH_READINGS,
        );
        let c: Classification = classify(
            &medians,
            &per_bucket,
            self.sampler.n_buckets(),
            self.prev_slope,
            is_pit_lap,
        );
        let news: bool = c.state != self.state && (c.state == BattleState::Push || c.state
            == BattleState::AttackSetup) && c.threat_car.is_some() && c.slope_info.is_some();
        self.state = c.state;
        if let Some(info) = c.slope_info {
            self.prev_slope = Some(info.median_slope);
        }
        (c, news)
    }
}

/// The event of a car that starts to close in.
pub fn make_closing_event(
    frame: &TelemetryFrame,
    done_lap: u8,
    c: &Classification,
    prior: (u32, Micro),
) -> (r: Option<RaceEvent>)
    ensures
        r == (if c.threat_car is Some && c.slope_info is Some {
            Some(closing_event(*frame, done_lap, *c, prior))
        } else {
            None
        }),
{
    match (c.threat_car, c.slope_info) {
        (Some(car), Some(info)) => {
            let slope: i128 = info.median_slope as i128;
            let rate: Micro = clamp(
                if slope < 0 {
                    -slope
                } else {
                    slope
                },
            );
            Some(
                RaceEvent::BattleClosing {
                    lap: done_lap,
                    session_time: frame.session_time,
                    player_car_idx: frame.player_car_idx,
                    opponent_car_idx: car,
                    car_race_position: frame.position(car),
                    closing_rate_sec_per_lap: rate,
                    slope_info: info,
                    prior_skirmishes: prior.0,
                    prior_attack_time_s: prior.1,
                },
            )
        },
        _ => None,
    }
}

/// Every reading of a rival is kept once: sampling the same frame again changes
/// nothing.
pub proof fn sampling_a_frame_twice_changes_nothing(
    s: SamplerView,
    rival: Numbered,
    lap: u8,
    lap_dist_pct: Micro,
    clean_first: bool,
    clean_again: bool,
)
    ensures
        ({
            let once = crate::anchor_sampler::sampled(
                s,
                lap,
                lap_dist_pct,
                rival.1,
                rival.0,
                clean_first,
            );
            crate::anchor_sampler::sampled(
                once,
                lap,
                lap_dist_pct,
                rival.1,
                rival.0,
                clean_again,
            ) == once
        }),
{
    let bucket = crate::anchor_sampler::anchor_bucket(lap_dist_pct, s.n_buckets);
    let once = crate::anchor_sampler::sampled(
        s,
        lap,
        lap_dist_pct,
        rival.1,
        rival.0,
        clean_first,
    );
    if !crate::anchor_sampler::recorded(s.samples, lap, bucket, rival.0) {
        assert(crate::anchor_sampler::is_reading_of(
            once.samples,
            s.samples.len() as int,
            lap,
            bucket,
            rival.0,
        ));
    }
}

/// A car is reported as closing in only when the direction is in another state
/// than before: a state that lasts is reported once.
pub proof fn a_lasting_state_is_reported_once(p: PressureView, c: Classification)
    requires
        c.state == p.state,
    ensures
        !closes_in(p, c),
{
}

/// A frame adds readings of its rivals at its own lap and anchor, each with the rival's
/// gap, and takes none away; every rival then has a reading there.
pub proof fn a_frame_adds_readings_of_its_rivals(
    s: SamplerView,
    rivals: Seq<Numbered>,
    lap: u8,
    lap_dist_pct: Micro,
    is_clean: bool,
)
    ensures
        ({
            let after = sampled_all(s, rivals, lap, lap_dist_pct, is_clean);
            let b = crate::anchor_sampler::anchor_bucket(lap_dist_pct, s.n_buckets);
            &&& after.n_buckets == s.n_buckets
            &&& s.samples.len() <= after.samples.len() <= s.samples.len() + rivals.len()
            &&& after.samples.take(s.samples.len() as int) == s.samples
            &&& forall|k: int|
                s.samples.len() <= k < after.samples.len() ==> {
                    &&& (#[trigger] after.samples[k]).lap == lap
                    &&& after.samples[k].bucket == b
                    &&& after.samples[k].is_clean == is_clean
                    &&& rivals.contains((after.samples[k].car_idx, after.samples[k].gap_s))
                }
            &&& forall|i: int|
                0 <= i < rivals.len() ==> crate::anchor_sampler::recorded(
                    after.samples,
                    lap,
                    b,
                    (#[trigger] rivals[i]).0,
                )
        }),
    decreases rivals.len(),
{
    let after = sampled_all(s, rivals, lap, lap_dist_pct, is_clean);
    let b = crate::anchor_sampler::anchor_bucket(lap_dist_pct, s.n_buckets);
    if rivals.len() == 0 {
        assert(after.samples.take(s.samples.len() as int) =~= s.samples);
    } else {
        let front = rivals.drop_last();
        let x = rivals.last();
        a_frame_adds_readings_of_its_rivals(s, front, lap, lap_dist_pct, is_clean);
        let mid = sampled_all(s, front, lap, lap_dist_pct, is_clean);
        assert(after.samples.take(s.samples.len() as int) =~= mid.samples.take(
            s.samples.len() as int,
        ));
        assert(rivals[rivals.len() - 1] == x);
        assert forall|k: int| s.samples.len() <= k < after.samples.len() implies {
            &&& (#[trigger] after.samples[k]).lap == lap
            &&& after.samples[k].bucket == b
            &&& after.samples[k].is_clean == is_clean
            &&& rivals.contains((after.samples[k].car_idx, after.samples[k].gap_s))
        } by {
            if k < mid.samples.len() {
                let y = (mid.samples[k].car_idx, mid.samples[k].gap_s);
                assert(after.samples[k] == mid.samples[k]);
                assert(front.contains(y));
                let j = choose|j: int| 0 <= j < front.len() && front[j] == y;
                assert(rivals[j] == y);
            } else {
                assert(rivals.contains(x));
            }
        }
        assert forall|i: int| 0 <= i < rivals.len() implies crate::anchor_sampler::recorded(
            after.samples,
            lap,
            b,
            (#[trigger] rivals[i]).0,
        ) by {
            if i < front.len() {
                assert(rivals[i] == front[i]);
                let k = choose|k: int|
                    crate::anchor_sampler::is_reading_of(mid.samples, k, lap, b, front[i].0);
                assert(crate::anchor_sampler::is_reading_of(after.samples, k, lap, b, front[i].0));
            } else if !crate::anchor_sampler::recorded(mid.samples, lap, b, x.0) {
                assert(crate::anchor_sampler::is_reading_of(
                    after.samples,
                    mid.samples.len() as int,
                    lap,
                    b,
                    x.0,
                ));
            }
        }
    }
}

/// A car is reported as closing in exactly where the lap leaves its direction in a push or
/// an attack in which it was not before: its slope is a twentieth of a second per lap or
/// more towards the player. The rate that is told is the size of that slope.
pub proof fn closing_in_is_a_new_push_or_attack(
    p: PressureView,
    done_lap: u8,
    is_pit_lap: bool,
    frame: TelemetryFrame,
    prior: (u32, Micro),
)
    ensures
        ({
            let c = assessed(p, done_lap, is_pit_lap);
            let strong = c.state == BattleState::Push || c.state == BattleState::AttackSetup;
            &&& closes_in(p, c) <==> strong && c.state != p.state
            &&& strong ==> {
                &&& !is_pit_lap
                &&& c.threat_car is Some
                &&& c.slope_info is Some
                &&& (c.slope_info->0).median_slope <= -50_000
                &&& (c.slope_info->0).anchors_qualifying >= 2
            }
            &&& closes_in(p, c) ==> match closing_event(frame, done_lap, c, prior) {
                RaceEvent::BattleClosing {
                    lap,
                    session_time,
                    player_car_idx,
                    opponent_car_idx,
                    closing_rate_sec_per_lap,
                    slope_info,
                    ..
                } => {
                    &&& lap == done_lap
                    &&& session_time == frame.session_time
                    &&& player_car_idx == frame.player_car_idx
                    &&& Some(opponent_car_idx) == c.threat_car
                    &&& Some(slope_info) == c.slope_info
                    &&& slope_info.median_slope > i64::MIN ==> closing_rate_sec_per_lap
                        + slope_info.median_slope == 0
                },
                _ => false,
            }
            &&& pressed(p, c).state == c.state
            &&& c.slope_info is Some ==> pressed(p, c).prev_slope == Some(
                (c.slope_info->0).median_slope,
            )
            &&& c.slope_info is None ==> pressed(p, c).prev_slope == p.prev_slope
            &&& pressed(p, c).sampler == p.sampler
        }),
{
}

/// A lap that is not one through the pits names a threat exactly where some car has been
/// read clean at one anchor in two laps up to it.
pub proof fn two_readings_make_a_slope(p: PressureView, done_lap: u8)
    requires
        crate::anchor_sampler::first_crossings_only(p.sampler.samples),
    ensures
        assessed(p, done_lap, false).threat_car is Some <==> exists|bucket: u8, car: u8|
            (#[trigger] crate::regression_store::series(
                p.sampler.samples,
                done_lap,
                bucket,
                car,
            )).len() >= 2,
{
    let samples = p.sampler.samples;
    let m = crate::regression_store::grouped(samples, done_lap);
    let all = crate::regression_store::car_summaries(m, MIN_PUSH_READINGS, 256);
    crate::regression_store::each_car_has_the_median_of_its_slopes(m, MIN_PUSH_READINGS, 256);
    if exists|bucket: u8, car: u8|
        (#[trigger] crate::regression_store::series(samples, done_lap, bucket, car)).len() >= 2 {
        let (bucket, car) = choose|bucket: u8, car: u8|
            (#[trigger] crate::regression_store::series(samples, done_lap, bucket, car)).len()
                >= 2;
        crate::regression_store::grouped_holds_each_series(samples, done_lap, bucket, car);
        crate::regression_store::lemma_series_laps_differ(samples, done_lap, bucket, car);
        crate::regression_store::different_laps_have_a_slope(
            crate::regression_store::series(samples, done_lap, bucket, car),
        );
        assert(crate::regression_store::anchor_slope(m, MIN_PUSH_READINGS, bucket, car) is Some);
        assert(all.len() > 0);
        crate::battle_state::fastest_closer_is_lowest(all, 0);
    }
    if assessed(p, done_lap, false).threat_car is Some {
        assert(all.len() > 0);
        let car = all[0].0;
        assert(crate::regression_store::describes(all[0].1, m, MIN_PUSH_READINGS, car));
        let s = choose|s: Seq<Numbered>|
            s.len() > 0 && #[trigger] crate::regression_store::sums_up(
                all[0].1,
                s,
                m,
                MIN_PUSH_READINGS,
                car,
            );
        assert(s.contains(s[0]));
        let bucket = s[0].0;
        assert(crate::regression_store::anchor_slope(m, MIN_PUSH_READINGS, bucket, car) is Some);
        crate::regression_store::grouped_holds_each_series(samples, done_lap, bucket, car);
        assert(crate::regression_store::series(samples, done_lap, bucket, car).len() >= 2);
    }
}

/// The place that a lap gives for its steepest anchor is that of an anchor whose lowest
/// slope is the lowest of all anchors at which some car has two readings, in millionths of
/// the lap and rounded down.
pub proof fn the_hotspot_is_the_steepest_anchor(p: PressureView, done_lap: u8) -> (h: u8)
    requires
        assessed(p, done_lap, false).slope_info is Some,
        p.sampler.n_buckets > 0,
    ensures
        ({
            let m = crate::regression_store::grouped(p.sampler.samples, done_lap);
            let place = (assessed(p, done_lap, false).slope_info->0).hotspot_lap_dist_pct;
            let low = crate::regression_store::steepest(m, 2, h, 256);
            &&& low is Some
            &&& forall|b: u8|
                (#[trigger] crate::regression_store::steepest(m, 2, b, 256)) is Some ==> low->0
                    <= crate::regression_store::steepest(m, 2, b, 256)->0
            &&& place * p.sampler.n_buckets <= h * 1_000_000 < (place + 1) * p.sampler.n_buckets
        }),
{
    let m = crate::regression_store::grouped(p.sampler.samples, done_lap);
    let all = crate::regression_store::car_summaries(m, MIN_PUSH_READINGS, 256);
    let slopes = crate::regression_store::bucket_slopes(m, 2, 256);
    assert(all.len() > 0);
    crate::regression_store::each_car_has_the_median_of_its_slopes(m, MIN_PUSH_READINGS, 256);
    crate::regression_store::every_anchor_has_its_lowest_slope(m, 2, 256);
    let car = all[0].0;
    assert(crate::regression_store::describes(all[0].1, m, MIN_PUSH_READINGS, car));
    let s = choose|s: Seq<Numbered>|
        s.len() > 0 && #[trigger] crate::regression_store::sums_up(
            all[0].1,
            s,
            m,
            MIN_PUSH_READINGS,
            car,
        );
    assert(s.contains(s[0]));
    let bucket = s[0].0;
    assert(crate::regression_store::anchor_slope(m, 2, bucket, car) is Some);
    crate::regression_store::the_steepest_is_the_lowest(m, 2, bucket, 256);
    assert(crate::regression_store::steepest(m, 2, bucket, 256) is Some);
    assert(slopes.len() > 0);
    let (k, at) = crate::battle_state::the_threat_is_the_fastest_closer(
        all,
        slopes,
        p.sampler.n_buckets,
        p.prev_slope,
    );
    assert forall|b: u8|
        (#[trigger] crate::regression_store::steepest(m, 2, b, 256)) is Some implies slopes[at].1
        <= crate::regression_store::steepest(m, 2, b, 256)->0 by {
        let j = choose|j: int| 0 <= j < slopes.len() && (#[trigger] slopes[j]).0 == b;
        assert(slopes[at].1 <= slopes[j].1);
    }
    slopes[at].0
}

} // verus!
