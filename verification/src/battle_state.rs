//! How threatening one direction of a battle is.

use vstd::prelude::*;

use crate::fixed::{quotient, Micro, ONE};
use crate::rank::Numbered;
use crate::regression_store::CarSlopeInfo;

verus! {

/// Race-threat state for a single direction (forward or defensive).
#[derive(Debug, Clone, Copy, PartialEq, Eq, Structural)]
pub enum BattleState {
    /// No battle is followed.
    Idle,
    /// Readings are gathered; nothing can be said of intent yet.
    Tracking,
    /// The gap shrinks steadily.
    Push,
    /// The gap shrinks ever faster.
    AttackSetup,
}

/// Slope metadata embedded in closing events.
#[derive(Debug, Clone, Copy, PartialEq, Eq, Structural)]
pub struct SlopeInfo {
    /// Median slope over the qualifying anchors, seconds per lap. Negative = closing.
    pub median_slope: Micro,
    /// Anchors with enough clean readings.
    pub anchors_qualifying: usize,
    /// Those of them whose slope is negative.
    pub anchors_agreeing: usize,
    /// Where on the lap the steepest-closing anchor lies.
    pub hotspot_lap_dist_pct: Micro,
}

/// A nearest gap below this counts as close, in seconds.
pub const CLOSE_APPROACH_THRESH_S: i64 = 1_500_000;

/// Frames in a row that a car must be close before a battle is on.
pub const CLOSE_APPROACH_MIN_FRAMES: u32 = 5;

/// Race positions that are scanned on either side of the player.
pub const SCAN_FIELD_POSITIONS: u8 = 5;

/// Slope at or below which the gap counts as shrinking, in seconds per lap.
pub const PUSH_SLOPE_THRESHOLD: i64 = -50_000;

/// Slope at or below which an attack is in the making, in seconds per lap.
pub const ATTACK_SLOPE_THRESHOLD: i64 = -100_000;

/// Readings, and anchors, that a push must rest on.
pub const MIN_PUSH_READINGS: usize = 2;

/// Anchors that an attack must rest on.
pub const MIN_ATTACK_READINGS: usize = 3;

/// What the slopes of one direction amount to.
#[derive(Debug, Clone, Copy, PartialEq, Eq, Structural)]
pub struct Classification {
    pub state: BattleState,
    /// The car that closes fastest.
    pub threat_car: Option<u8>,
    pub slope_info: Option<SlopeInfo>,
}

/// The car with the lowest median, the first of them where several share it.
pub open spec fn fastest_closer(medians: Seq<(u8, CarSlopeInfo)>) -> Option<(u8, CarSlopeInfo)>
    decreases medians.len(),
{
    if medians.len() == 0 {
        None
    } else {
        let x = medians.last();
        match fastest_closer(medians.drop_last()) {
            Some(best) => if x.1.median < best.1.median {
                Some(x)
            } else {
                Some(best)
            },
            None => Some(x),
        }
    }
}

/// The anchor with the lowest slope, the first of them where several share it.
pub open spec fn hotspot(slopes: Seq<Numbered>) -> Option<Numbered>
    decreases slopes.len(),
{
    if slopes.len() == 0 {
        None
    } else {
        let x = slopes.last();
        match hotspot(slopes.drop_last()) {
            Some(best) => if x.1 < best.1 {
                Some(x)
            } else {
                Some(best)
            },
            None => Some(x),
        }
    }
}

/// Place on the lap of an anchor.
pub open spec fn anchor_place(bucket: u8, anchor_count: usize) -> Micro {
    (bucket as int * ONE as int / anchor_count as int) as i64
}

/// The state that a car's slopes stand for.
pub open spec fn pressure_state(info: CarSlopeInfo, prev_slope: Option<Micro>) -> BattleState {
    if info.median <= ATTACK_SLOPE_THRESHOLD && info.n_buckets >= MIN_ATTACK_READINGS && (
    prev_slope matches Some(p) && info.median < p) {
        BattleState::AttackSetup
    } else if info.median <= PUSH_SLOPE_THRESHOLD && info.n_buckets >= MIN_PUSH_READINGS {
        BattleState::Push
    } else {
        BattleState::Tracking
    }
}

/// What the slopes of one direction amount to: nothing on a pit lap, a state to
/// be watched where no car has a slope, else the state of the fastest closer.
pub open spec fn classified(
    medians: Seq<(u8, CarSlopeInfo)>,
    slopes: Seq<Numbered>,
    anchor_count: usize,
    prev_slope: Option<Micro>,
    is_pit_lap: bool,
) -> Classification {
    if is_pit_lap {
        Classification { state: BattleState::Idle, threat_car: None, slope_info: None }
    } else {
        match fastest_closer(medians) {
            None => Classification {
                state: BattleState::Tracking,
                threat_car: None,
                slope_info: None,
            },
            Some((car_idx, info)) => Classification {
                state: pressure_state(info, prev_slope),
                threat_car: Some(car_idx),
                slope_info: Some(
                    SlopeInfo {
                        median_slope: info.median,
                        anchors_qualifying: info.n_buckets,
                        anchors_agreeing: info.n_agree,
                        hotspot_lap_dist_pct: match hotspot(slopes) {
                            Some((bucket, _)) => anchor_place(bucket, anchor_count),
                            None => 0,
                        },
                    },
                ),
            },
        }
    }
}

/// Classifies one direction of a battle from the slopes of a finished lap.
pub fn classify(
    car_medians: &Vec<(u8, CarSlopeInfo)>,
    per_bucket: &Vec<Numbered>,
    anchor_count: usize,
    prev_slope: Option<Micro>,
    is_pit_lap: bool,
) -> (r: Classification)
    requires
        anchor_count > 0,
    ensures
        r == classified(car_medians@, per_bucket@, anchor_count, prev_slope, is_pit_lap),
{
    if is_pit_lap {
        return Classification { state: BattleState::Idle, threat_car: None, slope_info: None };
    }
    let mut closer: Option<(u8, CarSlopeInfo)> = None;
    let mut i: usize = 0;
    while i < car_medians.len()
        invariant
            i <= car_medians@.len(),
            closer == fastest_closer(car_medians@.take(i as int)),
        decreases car_medians.len() - i,
    {
        proof {
            assert(car_medians@.take(i + 1).drop_last() =~= car_medians@.take(i as int));
        }
        let x: (u8, CarSlopeInfo) = car_medians[i];
        closer = match closer {
            Some(best) => if x.1.median < best.1.median {
                Some(x)
            } else {
                Some(best)
            },
            None => Some(x),
        };
        i = i + 1;
    }
    let mut hot: Option<Numbered> = None;
    let mut j: usize = 0;
    while j < per_bucket.len()
        invariant
            j <= per_bucket@.len(),
            hot == hotspot(per_bucket@.take(j as int)),
        decreases per_bucket.len() - j,
    {
        proof {
            assert(per_bucket@.take(j + 1).drop_last() =~= per_bucket@.take(j as int));
        }
        let x: Numbered = per_bucket[j];
        hot = match hot {
            Some(best) => if x.1 < best.1 {
                Some(x)
            } else {
                Some(best)
            },
            None => Some(x),
        };
        j = j + 1;
    }
    proof {
        assert(car_medians@.take(i as int) =~= car_medians@);
        assert(per_bucket@.take(j as int) =~= per_bucket@);
    }
    let place: Micro = match hot {
        Some((bucket, _)) => place_of(bucket, anchor_count),
        None => 0,
    };
    match closer {
        None => Classification {
            state: BattleState::Tracking,
            threat_car: None,
            slope_info: None,
        },
        Some((car_idx, info)) => {
            let steeper: bool = match prev_slope {
                Some(p) => info.median < p,
                None => false,
            };
            let state: BattleState = if info.median <= ATTACK_SLOPE_THRESHOLD && info.n_buckets
                >= MIN_ATTACK_READINGS && steeper {
                BattleState::AttackSetup
            } else if info.median <= PUSH_SLOPE_THRESHOLD && info.n_buckets >= MIN_PUSH_READINGS {
                BattleState::Push
            } else {
                BattleState::Tracking
            };
            Classification {
                state,
                threat_car: Some(car_idx),
                slope_info: Some(
                    SlopeInfo {
                        median_slope: info.median,
                        anchors_qualifying: info.n_buckets,
                        anchors_agreeing: info.n_agree,
                        hotspot_lap_dist_pct: place,
                    },
                ),
            }
        },
    }
}

/// Place on the lap of an anchor.
pub fn place_of(bucket: u8, anchor_count: usize) -> (r: Micro)
    requires
        anchor_count > 0,
    ensures
        r == anchor_place(bucket, anchor_count),
{
    let product: i128 = bucket as i128 * ONE as i128;
    proof {
        let n = product as int;
        let d = anchor_count as int;
        assert(0 <= n / d <= n) by (nonlinear_arith)
            requires
                n >= 0,
                d > 0,
        ;
    }
    quotient(product, anchor_count as i128) as i64
}

/// An attack is always a push that steepens: whatever makes one also makes the
/// other, and the slope fell since the lap before.
pub proof fn attack_is_a_steepening_push(info: CarSlopeInfo, prev_slope: Option<Micro>)
    requires
        pressure_state(info, prev_slope) == BattleState::AttackSetup,
    ensures
        pressure_state(info, None) == BattleState::Push,
        prev_slope matches Some(p) && info.median < p,
{
}

/// The threat is no slower to close than any other car.
pub proof fn fastest_closer_is_lowest(medians: Seq<(u8, CarSlopeInfo)>, i: int)
    requires
        0 <= i < medians.len(),
    ensures
        fastest_closer(medians) matches Some(best) && best.1.median <= medians[i].1.median
            && medians.contains(best),
    decreases medians.len(),
{
    let front = medians.drop_last();
    if medians.len() > 1 {
        let k = if i < front.len() {
            i
        } else {
            0
        };
        fastest_closer_is_lowest(front, k);
        let best = fastest_closer(front)->0;
        let at = choose|at: int| 0 <= at < front.len() && front[at] == best;
        assert(medians[at] == best);
    }
    assert(medians[medians.len() - 1] == medians.last());
}

/// A car that closes by a tenth of a second per lap or more at three anchors or more, and
/// by more than on the lap before, sets up an attack. One that closes by a twentieth or
/// more at two anchors or more pushes. Any other is only tracked.
pub proof fn the_state_goes_by_the_closing_rate(info: CarSlopeInfo, prev_slope: Option<Micro>)
    ensures
        ({
            let attack = info.median <= -100_000 && info.n_buckets >= 3 && (
            prev_slope matches Some(p) && info.median < p);
            let push = info.median <= -50_000 && info.n_buckets >= 2;
            &&& pressure_state(info, prev_slope) == BattleState::AttackSetup <==> attack
            &&& pressure_state(info, prev_slope) == BattleState::Push <==> push && !attack
            &&& pressure_state(info, prev_slope) == BattleState::Tracking <==> !push && !attack
        }),
{
}

/// The first of the lowest.
proof fn lemma_fastest_is_first(medians: Seq<(u8, CarSlopeInfo)>) -> (k: int)
    requires
        medians.len() > 0,
    ensures
        0 <= k < medians.len(),
        fastest_closer(medians) == Some(medians[k]),
        forall|j: int|
            0 <= j < medians.len() ==> medians[k].1.median <= (#[trigger] medians[j]).1.median,
        forall|j: int| 0 <= j < k ==> medians[k].1.median < (#[trigger] medians[j]).1.median,
    decreases medians.len(),
{
    let n = medians.len() - 1;
    let front = medians.drop_last();
    if n == 0 {
        0
    } else {
        let k = lemma_fastest_is_first(front);
        assert forall|j: int| 0 <= j < n implies front[j] == #[trigger] medians[j] by {}
        assert(medians[n] == medians.last());
        assert(front[k] == medians[k]);
        if medians[n].1.median < medians[k].1.median {
            n
        } else {
            k
        }
    }
}

/// The first of the lowest.
proof fn lemma_hotspot_is_first(slopes: Seq<Numbered>) -> (k: int)
    requires
        slopes.len() > 0,
    ensures
        0 <= k < slopes.len(),
        hotspot(slopes) == Some(slopes[k]),
        forall|j: int| 0 <= j < slopes.len() ==> slopes[k].1 <= (#[trigger] slopes[j]).1,
        forall|j: int| 0 <= j < k ==> slopes[k].1 < (#[trigger] slopes[j]).1,
    decreases slopes.len(),
{
    let n = slopes.len() - 1;
    let front = slopes.drop_last();
    if n == 0 {
        0
    } else {
        let k = lemma_hotspot_is_first(front);
        assert forall|j: int| 0 <= j < n implies front[j] == #[trigger] slopes[j] by {}
        assert(slopes[n] == slopes.last());
        assert(front[k] == slopes[k]);
        if slopes[n].1 < slopes[k].1 {
            n
        } else {
            k
        }
    }
}

/// The threat is the car with the lowest median, the first where several share it, and
/// its state is that of its slopes. What is said of it is its own median and its own
/// anchors, and the place of the anchor at which the gap closes fastest, in millionths of
/// a lap and rounded down.
pub proof fn the_threat_is_the_fastest_closer(
    medians: Seq<(u8, CarSlopeInfo)>,
    slopes: Seq<Numbered>,
    anchor_count: usize,
    prev_slope: Option<Micro>,
) -> (found: (int, int))
    requires
        medians.len() > 0,
        slopes.len() > 0,
        anchor_count > 0,
    ensures
        ({
            let c = classified(medians, slopes, anchor_count, prev_slope, false);
            let (k, h) = found;
            let info = medians[k].1;
            let place = (c.slope_info->0).hotspot_lap_dist_pct;
            &&& 0 <= k < medians.len()
            &&& forall|j: int|
                0 <= j < medians.len() ==> info.median <= (#[trigger] medians[j]).1.median
            &&& forall|j: int| 0 <= j < k ==> info.median < (#[trigger] medians[j]).1.median
            &&& c.threat_car == Some(medians[k].0)
            &&& c.state == pressure_state(info, prev_slope)
            &&& c.slope_info is Some
            &&& (c.slope_info->0).median_slope == info.median
            &&& (c.slope_info->0).anchors_qualifying == info.n_buckets
            &&& (c.slope_info->0).anchors_agreeing == info.n_agree
            &&& 0 <= h < slopes.len()
            &&& forall|j: int| 0 <= j < slopes.len() ==> slopes[h].1 <= (#[trigger] slopes[j]).1
            &&& forall|j: int| 0 <= j < h ==> slopes[h].1 < (#[trigger] slopes[j]).1
            &&& place * anchor_count <= slopes[h].0 * 1_000_000 < (place + 1) * anchor_count
        }),
{
    let k = lemma_fastest_is_first(medians);
    let h = lemma_hotspot_is_first(slopes);
    let x = slopes[h].0 * 1_000_000;
    let d = anchor_count as int;
    assert((x / d) * d <= x < (x / d + 1) * d && 0 <= x / d <= x) by (nonlinear_arith)
        requires
            d > 0,
            x >= 0,
    ;
    (k, h)
}

/// A lap through the pits says nothing of any car; a lap without a slope leaves the state
/// at tracking and names no car.
pub proof fn no_threat_without_a_slope(
    medians: Seq<(u8, CarSlopeInfo)>,
    slopes: Seq<Numbered>,
    anchor_count: usize,
    prev_slope: Option<Micro>,
)
    ensures
        ({
            let pit = classified(medians, slopes, anchor_count, prev_slope, true);
            pit.state == BattleState::Idle && pit.threat_car is None && pit.slope_info is None
        }),
        medians.len() == 0 ==> {
            let c = classified(medians, slopes, anchor_count, prev_slope, false);
            c.state == BattleState::Tracking && c.threat_car is None && c.slope_info is None
        },
{
}

} // verus!
