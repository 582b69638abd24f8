//! Closing rates: the slope of the gap over the laps, anchor by anchor.

use std::collections::HashMap;

use vstd::prelude::*;

use crate::anchor_sampler::{AnchorReading, AnchorSampler};
use crate::fixed::{clamp, quotient, Micro};
use crate::rank::{
    at_least, at_most, insert_in_rank, is_middle, median, ranked_insert_keeps_order, rises,
    the_median_lies_in_the_middle, Numbered,
};

verus! {

broadcast use vstd::std_specs::hash::group_hash_axioms;

/// Gaps of one car at one anchor: (lap, gap) in the order they were read.
pub type Readings = Seq<(u8, Micro)>;

/// The number under which the readings of an anchor and a car are kept.
pub open spec fn series_key(bucket: u8, car_idx: u8) -> u16 {
    (bucket as int * 256 + car_idx as int) as u16
}

/// The readings kept for an anchor and a car.
pub open spec fn readings_of(
    m: Map<u16, Readings>,
    bucket: u8,
    car_idx: u8,
) -> Readings {
    if m.contains_key(series_key(bucket, car_idx)) {
        m[series_key(bucket, car_idx)]
    } else {
        Seq::empty()
    }
}

/// Whether a reading takes part: it is clean and not of a lap after `max_lap`.
pub open spec fn counts(r: AnchorReading, max_lap: u8) -> bool {
    r.is_clean && r.lap <= max_lap
}

/// The clean readings up to `max_lap`, grouped by anchor and car.
pub open spec fn grouped(samples: Seq<AnchorReading>, max_lap: u8) -> Map<u16, Readings>
    decreases samples.len(),
{
    if samples.len() == 0 {
        Map::empty()
    } else {
        let m = grouped(samples.drop_last(), max_lap);
        let r = samples.last();
        if counts(r, max_lap) {
            m.insert(
                series_key(r.bucket, r.car_idx),
                readings_of(m, r.bucket, r.car_idx).push((r.lap, r.gap_s)),
            )
        } else {
            m
        }
    }
}

/// Sum of the laps.
pub open spec fn sum_x(p: Readings) -> int
    decreases p.len(),
{
    if p.len() == 0 {
        0
    } else {
        sum_x(p.drop_last()) + p.last().0
    }
}

/// Sum of the gaps.
pub open spec fn sum_y(p: Readings) -> int
    decreases p.len(),
{
    if p.len() == 0 {
        0
    } else {
        sum_y(p.drop_last()) + p.last().1
    }
}

/// Sum of the squared laps.
pub open spec fn sum_xx(p: Readings) -> int
    decreases p.len(),
{
    if p.len() == 0 {
        0
    } else {
        sum_xx(p.drop_last()) + p.last().0 * p.last().0
    }
}

/// Sum of lap times gap.
pub open spec fn sum_xy(p: Readings) -> int
    decreases p.len(),
{
    if p.len() == 0 {
        0
    } else {
        sum_xy(p.drop_last()) + p.last().0 * p.last().1
    }
}

/// Spread of the laps: the denominator of the least-squares slope.
pub open spec fn spread(p: Readings) -> int {
    p.len() * sum_xx(p) - sum_x(p) * sum_x(p)
}

/// The numerator of the least-squares slope.
pub open spec fn covariation(p: Readings) -> int {
    p.len() * sum_xy(p) - sum_x(p) * sum_y(p)
}

/// Least-squares slope of the gap over the laps, in seconds per lap, rounded
/// down. There is none where the readings do not spread over two laps.
pub open spec fn slope(p: Readings) -> Option<Micro> {
    if p.len() < 2 || spread(p) <= 0 {
        None
    } else {
        Some(crate::fixed::clamped(covariation(p) / spread(p)))
    }
}

/// Slope of a car at an anchor that has at least `min_readings` readings.
pub open spec fn anchor_slope(
    m: Map<u16, Readings>,
    min_readings: usize,
    bucket: u8,
    car_idx: u8,
) -> Option<Micro> {
    let p = readings_of(m, bucket, car_idx);
    if p.len() >= min_readings {
        slope(p)
    } else {
        None
    }
}

/// The lower of two slopes, where there is one.
pub open spec fn lower(a: Option<Micro>, b: Option<Micro>) -> Option<Micro> {
    match (a, b) {
        (Some(x), Some(y)) => if y < x {
            b
        } else {
            a
        },
        (None, _) => b,
        (_, None) => a,
    }
}

/// Lowest slope at an anchor over the cars below `cars`.
pub open spec fn steepest(
    m: Map<u16, Readings>,
    min_readings: usize,
    bucket: u8,
    cars: nat,
) -> Option<Micro>
    decreases cars,
{
    if cars == 0 {
        None
    } else {
        lower(
            steepest(m, min_readings, bucket, (cars - 1) as nat),
            anchor_slope(m, min_readings, bucket, (cars - 1) as u8),
        )
    }
}

/// Lowest slope of each anchor below `buckets` that has one, by anchor.
pub open spec fn bucket_slopes(
    m: Map<u16, Readings>,
    min_readings: usize,
    buckets: nat,
) -> Seq<Numbered>
    decreases buckets,
{
    if buckets == 0 {
        Seq::empty()
    } else {
        let rest = bucket_slopes(m, min_readings, (buckets - 1) as nat);
        match steepest(m, min_readings, (buckets - 1) as u8, 256) {
            Some(x) => rest.push(((buckets - 1) as u8, x)),
            None => rest,
        }
    }
}

/// Slopes of a car at the anchors below `buckets`, in rising order.
pub open spec fn car_slopes(
    m: Map<u16, Readings>,
    min_readings: usize,
    car_idx: u8,
    buckets: nat,
) -> Seq<Numbered>
    decreases buckets,
{
    if buckets == 0 {
        Seq::empty()
    } else {
        let rest = car_slopes(m, min_readings, car_idx, (buckets - 1) as nat);
        match anchor_slope(m, min_readings, (buckets - 1) as u8, car_idx) {
            Some(x) => crate::rank::ranked_insert(rest, ((buckets - 1) as u8, x)),
            None => rest,
        }
    }
}

/// How many values are below zero.
pub open spec fn negatives(s: Seq<Numbered>) -> nat
    decreases s.len(),
{
    if s.len() == 0 {
        0
    } else {
        negatives(s.drop_last()) + if s.last().1 < 0 {
            1nat
        } else {
            0nat
        }
    }
}

/// What the slopes of one car amount to.
pub open spec fn car_summary(slopes: Seq<Numbered>) -> CarSlopeInfo {
    CarSlopeInfo {
        median: crate::rank::middle(slopes),
        n_buckets: slopes.len() as usize,
        n_agree: negatives(slopes) as usize,
    }
}

/// Summary of each car below `cars` that has a slope, by car.
pub open spec fn car_summaries(
    m: Map<u16, Readings>,
    min_readings: usize,
    cars: nat,
) -> Seq<(u8, CarSlopeInfo)>
    decreases cars,
{
    if cars == 0 {
        Seq::empty()
    } else {
        let rest = car_summaries(m, min_readings, (cars - 1) as nat);
        let slopes = car_slopes(m, min_readings, (cars - 1) as u8, 256);
        if slopes.len() > 0 {
            rest.push(((cars - 1) as u8, car_summary(slopes)))
        } else {
            rest
        }
    }
}

/// Slope summary of one car over its anchors.
#[derive(Debug, Clone, Copy, PartialEq, Eq, Structural)]
pub struct CarSlopeInfo {
    pub median: Micro,
    /// Anchors with enough clean readings.
    pub n_buckets: usize,
    /// Those of them where the car is closing.
    pub n_agree: usize,
}

/// No lap occurs twice.
pub open spec fn laps_differ(p: Readings) -> bool {
    forall|i: int, j: int| 0 <= i < j < p.len() ==> #[trigger] p[i].0 != #[trigger] p[j].0
}

/// Stores per-(bucket, car_idx) time series and computes OLS slopes on demand.
pub struct RegressionStore {
    data: HashMap<u16, Vec<(u8, Micro)>>,
}

impl View for RegressionStore {
    type V = Map<u16, Readings>;

    closed spec fn view(&self) -> Map<u16, Readings> {
        self.data@.map_values(|v: Vec<(u8, Micro)>| v@)
    }
}

impl Default for RegressionStore {
    /// A store without readings.
    fn default() -> (r: Self)
        ensures
            r@ == Map::<u16, Readings>::empty(),
    {
        RegressionStore::new()
    }
}

impl RegressionStore {
    #[verifier::type_invariant]
    spec fn inv(self) -> bool {
        forall|k: u16| #[trigger] self.data@.contains_key(k) ==> laps_differ(self.data@[k]@)
    }

    /// A store without readings.
    pub fn new() -> (r: Self)
        ensures
            r@ == Map::<u16, Readings>::empty(),
    {
        let r: RegressionStore = RegressionStore { data: HashMap::new() };
        assert(r@ =~= Map::<u16, Readings>::empty());
        r
    }

    /// Rebuilds the store from the clean readings of the laps up to `max_lap`.
    ///
    /// Leaving out later laps keeps the first frame of a new lap from entering
    /// the slope of the lap before it.
    pub fn ingest(&mut self, sampler: &AnchorSampler, max_lap: u8)
        ensures
            final(self)@ == grouped(sampler@.samples, max_lap),
    {
        let samples: &Vec<AnchorReading> = sampler.samples();
        let mut data: HashMap<u16, Vec<(u8, Micro)>> = HashMap::new();
        let mut i: usize = 0;
        assert(data@.map_values(|v: Vec<(u8, Micro)>| v@) =~= Map::<u16, Readings>::empty());
        while i < samples.len()
            invariant
                i <= samples@.len(),
                data@.map_values(|v: Vec<(u8, Micro)>| v@) == grouped(
                    samples@.take(i as int),
                    max_lap,
                ),
            decreases samples.len() - i,
        {
            let r: AnchorReading = samples[i];
            proof {
                assert(samples@.take(i + 1).drop_last() =~= samples@.take(i as int));
            }
            if r.is_clean && r.lap <= max_lap {
                let key: u16 = r.bucket as u16 * 256 + r.car_idx as u16;
                let ghost before = data@;
                let mut series: Vec<(u8, Micro)> = match data.remove(&key) {
                    Some(v) => v,
                    None => Vec::new(),
                };
                series.push((r.lap, r.gap_s));
                data.insert(key, series);
                proof {
                    let grown = grouped(samples@.take(i + 1), max_lap);
                    assert(key == series_key(r.bucket, r.car_idx));
                    assert(data@ =~= before.insert(key, series));
                    assert(data@.map_values(|v: Vec<(u8, Micro)>| v@) =~= grown);
                }
            }
            i = i + 1;
        }
        proof {
            assert(samples@.take(i as int) =~= samples@);
            lemma_grouped_laps_differ(samples@, max_lap);
            assert forall|k: u16| #[trigger] data@.contains_key(k) implies laps_differ(
                data@[k]@,
            ) by {
                assert(grouped(samples@, max_lap).contains_key(k));
                assert(grouped(samples@, max_lap)[k] == data@[k]@);
            }
        }
        *self = RegressionStore { data };
    }

    /// Slope of a car at an anchor with at least `min_readings` readings.
    pub fn slope_at(&self, min_readings: usize, bucket: u8, car_idx: u8) -> (r: Option<Micro>)
        ensures
            r == anchor_slope(self@, min_readings, bucket, car_idx),
    {
        proof {
            use_type_invariant(&*self);
        }
        let key: u16 = bucket as u16 * 256 + car_idx as u16;
        assert(key == series_key(bucket, car_idx));
        match self.data.get(&key) {
            Some(points) => {
                proof {
                    lemma_at_most_one_per_lap(points@);
                }
                if points.len() >= min_readings {
                    ols_slope(points)
                } else {
                    None
                }
            },
            None => None,
        }
    }

    /// Lowest slope of each anchor over all cars, by anchor.
    pub fn per_bucket_slopes(&self, min_readings: usize) -> (r: Vec<Numbered>)
        ensures
            r@ == bucket_slopes(self@, min_readings, 256),
    {
        let mut out: Vec<Numbered> = Vec::new();
        let mut bucket: usize = 0;
        while bucket < 256
            invariant
                bucket <= 256,
                out@ == bucket_slopes(self@, min_readings, bucket as nat),
            decreases 256 - bucket,
        {
            let mut low: Option<Micro> = None;
            let mut car: usize = 0;
            while car < 256
                invariant
                    bucket < 256,
                    car <= 256,
                    low == steepest(self@, min_readings, bucket as u8, car as nat),
                decreases 256 - car,
            {
                let here: Option<Micro> = self.slope_at(min_readings, bucket as u8, car as u8);
                low = match (low, here) {
                    (Some(x), Some(y)) => if y < x {
                        Some(y)
                    } else {
                        Some(x)
                    },
                    (None, y) => y,
                    (x, None) => x,
                };
                car = car + 1;
            }
            if let Some(x) = low {
                out.push((bucket as u8, x));
            }
            bucket = bucket + 1;
        }
        out
    }

    /// Median over the anchors of each car's slopes, by car.
    pub fn per_car_median_slopes(&self, min_readings: usize) -> (r: Vec<(u8, CarSlopeInfo)>)
        ensures
            r@ == car_summaries(self@, min_readings, 256),
    {
        let mut out: Vec<(u8, CarSlopeInfo)> = Vec::new();
        let mut car: usize = 0;
        while car < 256
            invariant
                car <= 256,
                out@ == car_summaries(self@, min_readings, car as nat),
            decreases 256 - car,
        {
            let mut slopes: Vec<Numbered> = Vec::new();
            let mut bucket: usize = 0;
            while bucket < 256
                invariant
                    car < 256,
                    bucket <= 256,
                    slopes@ == car_slopes(self@, min_readings, car as u8, bucket as nat),
                decreases 256 - bucket,
            {
                if let Some(x) = self.slope_at(min_readings, bucket as u8, car as u8) {
                    insert_in_rank(&mut slopes, (bucket as u8, x));
                }
                bucket = bucket + 1;
            }
            if slopes.len() > 0 {
                let info: CarSlopeInfo = CarSlopeInfo {
                    median: median(&slopes),
                    n_buckets: slopes.len(),
                    n_agree: count_negative(&slopes),
                };
                out.push((car as u8, info));
            }
            car = car + 1;
        }
        out
    }
}

/// How many values are below zero.
fn count_negative(v: &Vec<Numbered>) -> (r: usize)
    ensures
        r == negatives(v@),
{
    let mut n: usize = 0;
    let mut i: usize = 0;
    while i < v.len()
        invariant
            i <= v@.len(),
            n <= i,
            n == negatives(v@.take(i as int)),
        decreases v.len() - i,
    {
        proof {
            assert(v@.take(i + 1).drop_last() =~= v@.take(i as int));
        }
        if v[i].1 < 0 {
            n = n + 1;
        }
        i = i + 1;
    }
    proof {
        assert(v@.take(i as int) =~= v@);
    }
    n
}

/// The readings that a car has at an anchor, out of all that were taken.
pub open spec fn series(
    samples: Seq<AnchorReading>,
    max_lap: u8,
    bucket: u8,
    car_idx: u8,
) -> Readings
    decreases samples.len(),
{
    if samples.len() == 0 {
        Seq::empty()
    } else {
        let rest = series(samples.drop_last(), max_lap, bucket, car_idx);
        let r = samples.last();
        if counts(r, max_lap) && r.bucket == bucket && r.car_idx == car_idx {
            rest.push((r.lap, r.gap_s))
        } else {
            rest
        }
    }
}

/// Under each anchor and car the store holds that anchor's and that car's clean
/// readings up to the lap, in the order they were taken, and nothing else.
pub proof fn grouped_holds_each_series(
    samples: Seq<AnchorReading>,
    max_lap: u8,
    bucket: u8,
    car_idx: u8,
)
    ensures
        readings_of(grouped(samples, max_lap), bucket, car_idx) == series(
            samples,
            max_lap,
            bucket,
            car_idx,
        ),
    decreases samples.len(),
{
    if samples.len() > 0 {
        let r = samples.last();
        grouped_holds_each_series(samples.drop_last(), max_lap, bucket, car_idx);
        grouped_holds_each_series(samples.drop_last(), max_lap, r.bucket, r.car_idx);
        assert(series_key(bucket, car_idx) == series_key(r.bucket, r.car_idx) ==> bucket
            == r.bucket && car_idx == r.car_idx);
    }
}

/// A reading that is not clean, or of a later lap, changes no slope: the store is
/// the same with it and without it.
pub proof fn a_reading_that_does_not_count_changes_nothing(
    samples: Seq<AnchorReading>,
    reading: AnchorReading,
    max_lap: u8,
)
    requires
        !reading.is_clean || reading.lap > max_lap,
    ensures
        grouped(samples.push(reading), max_lap) == grouped(samples, max_lap),
{
    assert(samples.push(reading).drop_last() =~= samples);
}

/// Every lap of a series is that of a reading of its anchor and car.
proof fn lemma_series_from_samples(
    samples: Seq<AnchorReading>,
    max_lap: u8,
    bucket: u8,
    car_idx: u8,
    i: int,
) -> (k: int)
    requires
        0 <= i < series(samples, max_lap, bucket, car_idx).len(),
    ensures
        0 <= k < samples.len(),
        samples[k].bucket == bucket,
        samples[k].car_idx == car_idx,
        samples[k].lap == series(samples, max_lap, bucket, car_idx)[i].0,
    decreases samples.len(),
{
    let rest = series(samples.drop_last(), max_lap, bucket, car_idx);
    if i < rest.len() {
        lemma_series_from_samples(samples.drop_last(), max_lap, bucket, car_idx, i)
    } else {
        samples.len() - 1
    }
}

/// Where each anchor is read once per lap and car, no series has a lap twice.
pub proof fn lemma_series_laps_differ(
    samples: Seq<AnchorReading>,
    max_lap: u8,
    bucket: u8,
    car_idx: u8,
)
    requires
        crate::anchor_sampler::first_crossings_only(samples),
    ensures
        laps_differ(series(samples, max_lap, bucket, car_idx)),
    decreases samples.len(),
{
    if samples.len() > 0 {
        let front = samples.drop_last();
        assert(crate::anchor_sampler::first_crossings_only(front)) by {
            assert forall|i: int, j: int| 0 <= i < j < front.len() implies !(#[trigger] front[i].lap
                == #[trigger] front[j].lap && front[i].bucket == front[j].bucket
                && front[i].car_idx == front[j].car_idx) by {
                assert(front[i] == samples[i] && front[j] == samples[j]);
            }
        }
        lemma_series_laps_differ(front, max_lap, bucket, car_idx);
        let rest = series(front, max_lap, bucket, car_idx);
        let all = series(samples, max_lap, bucket, car_idx);
        let last = samples.len() - 1;
        assert forall|i: int, j: int| 0 <= i < j < all.len() implies #[trigger] all[i].0
            != #[trigger] all[j].0 by {
            if j < rest.len() {
                assert(rest[i].0 != rest[j].0);
            } else {
                let k = lemma_series_from_samples(front, max_lap, bucket, car_idx, i);
                assert(samples[k] == front[k]);
                assert(!(samples[k].lap == samples[last].lap && samples[k].bucket
                    == samples[last].bucket && samples[k].car_idx == samples[last].car_idx));
            }
        }
    }
}

/// The same of what a store is built from.
proof fn lemma_grouped_laps_differ(samples: Seq<AnchorReading>, max_lap: u8)
    requires
        crate::anchor_sampler::first_crossings_only(samples),
    ensures
        forall|k: u16| #[trigger]
            grouped(samples, max_lap).contains_key(k) ==> laps_differ(grouped(samples, max_lap)[k]),
{
    assert forall|k: u16| #[trigger] grouped(samples, max_lap).contains_key(k) implies laps_differ(
        grouped(samples, max_lap)[k],
    ) by {
        let bucket = (k / 256) as u8;
        let car_idx = (k % 256) as u8;
        assert(k == series_key(bucket, car_idx));
        grouped_holds_each_series(samples, max_lap, bucket, car_idx);
        lemma_series_laps_differ(samples, max_lap, bucket, car_idx);
    }
}

/// Readings of different laps are at most as many as there are laps.
proof fn lemma_at_most_one_per_lap(p: Readings)
    requires
        laps_differ(p),
    ensures
        p.len() <= 256,
{
    let laps = p.map_values(|x: (u8, Micro)| x.0 as int);
    assert(laps.no_duplicates());
    laps.unique_seq_to_set();
    assert(laps.to_set().subset_of(vstd::set_lib::set_int_range(0, 256)));
    vstd::set_lib::lemma_int_range(0, 256);
    vstd::set_lib::lemma_len_subset(laps.to_set(), vstd::set_lib::set_int_range(0, 256));
}

/// Least-squares slope of the gap over the laps, in seconds per lap.
pub fn ols_slope(points: &Vec<(u8, Micro)>) -> (r: Option<Micro>)
    requires
        points@.len() <= 0x1_0000,
    ensures
        r == slope(points@),
{
    let n: usize = points.len();
    if n < 2 {
        return None;
    }
    let mut sx: i128 = 0;
    let mut sy: i128 = 0;
    let mut sxx: i128 = 0;
    let mut sxy: i128 = 0;
    let mut i: usize = 0;
    while i < n
        invariant
            n == points@.len(),
            n <= 0x1_0000,
            i <= n,
            sx == sum_x(points@.take(i as int)),
            sy == sum_y(points@.take(i as int)),
            sxx == sum_xx(points@.take(i as int)),
            sxy == sum_xy(points@.take(i as int)),
            0 <= sx <= 255 * i,
            0 <= sxx <= 65025 * i,
            -0x8000_0000_0000_0000 * i <= sy <= 0x8000_0000_0000_0000 * i,
            -0x7f_8000_0000_0000_0000 * i <= sxy <= 0x7f_8000_0000_0000_0000 * i,
        decreases n - i,
    {
        let (lap, gap): (u8, Micro) = points[i];
        proof {
            assert(points@.take(i + 1).drop_last() =~= points@.take(i as int));
            assert(0 <= lap * lap <= 65025) by (nonlinear_arith)
                requires
                    0 <= lap <= 255,
            ;
            assert(-0x7f_8000_0000_0000_0000 <= lap * gap <= 0x7f_8000_0000_0000_0000)
                by (nonlinear_arith)
                requires
                    0 <= lap <= 255,
                    -0x8000_0000_0000_0000 <= gap <= 0x7fff_ffff_ffff_ffff,
            ;
        }
        sx = sx + lap as i128;
        sy = sy + gap as i128;
        sxx = sxx + lap as i128 * lap as i128;
        sxy = sxy + lap as i128 * gap as i128;
        i = i + 1;
    }
    proof {
        assert(points@.take(n as int) =~= points@);
        lemma_products_fit(n as int, sx as int, sy as int, sxx as int, sxy as int);
    }
    let den: i128 = n as i128 * sxx - sx * sx;
    if den <= 0 {
        return None;
    }
    let num: i128 = n as i128 * sxy - sx * sy;
    Some(clamp(quotient(num, den)))
}

/// The products of the sums stay far inside 128 bits.
proof fn lemma_products_fit(n: int, sx: int, sy: int, sxx: int, sxy: int)
    by (nonlinear_arith)
    requires
        0 <= n <= 0x1_0000,
        0 <= sx <= 255 * n,
        0 <= sxx <= 65025 * n,
        -0x8000_0000_0000_0000 * n <= sy <= 0x8000_0000_0000_0000 * n,
        -0x7f_8000_0000_0000_0000 * n <= sxy <= 0x7f_8000_0000_0000_0000 * n,
    ensures
        0 <= n * sxx <= 0x100_0000_0000_0000,
        0 <= sx * sx <= 0x100_0000_0000_0000,
        -0x80_0000_0000_0000_0000_0000_0000 <= n * sxy <= 0x80_0000_0000_0000_0000_0000_0000,
        -0x80_0000_0000_0000_0000_0000_0000 <= sx * sy <= 0x80_0000_0000_0000_0000_0000_0000,
{
    assert(n * n <= 0x1_0000_0000);
    assert(n * sxx <= 65025 * (n * n));
    assert(sx * sx <= (255 * n) * (255 * n));
    assert((255 * n) * (255 * n) == 65025 * (n * n));
    assert(n * sxy <= 0x7f_8000_0000_0000_0000 * (n * n));
    assert(n * sxy >= -0x7f_8000_0000_0000_0000 * (n * n));
    assert(sx * sy <= (255 * n) * (0x8000_0000_0000_0000 * n));
    assert(sx * sy >= -((255 * n) * (0x8000_0000_0000_0000 * n)));
}

/// Accordion cancellation: what stretches or shrinks every gap at an anchor
/// alike leaves the sums that the slope is made of in step.
proof fn lemma_shifted_sums(p: Readings, q: Readings, c: int)
    requires
        p.len() == q.len(),
        forall|i: int| 0 <= i < p.len() ==> #[trigger] q[i].0 == p[i].0 && q[i].1 == p[i].1 + c,
    ensures
        sum_x(q) == sum_x(p),
        sum_xx(q) == sum_xx(p),
        sum_y(q) == sum_y(p) + p.len() * c,
        sum_xy(q) == sum_xy(p) + c * sum_x(p),
    decreases p.len(),
{
    if p.len() > 0 {
        let n = p.len() as int;
        lemma_shifted_sums(p.drop_last(), q.drop_last(), c);
        assert(q[n - 1].0 == p[n - 1].0);
        let x = p.last().0 as int;
        let y = p.last().1 as int;
        let s = sum_x(p.drop_last());
        assert(x * (y + c) == x * y + c * x) by (nonlinear_arith);
        assert(c * (s + x) == c * s + c * x) by (nonlinear_arith);
        assert((n - 1) * c + c == n * c) by (nonlinear_arith);
    }
}

/// Accordion cancellation: where every gap at an anchor is longer or shorter by
/// the same amount, the closing rate there is the same.
pub proof fn slope_ignores_a_constant_offset(p: Readings, q: Readings, c: int)
    requires
        p.len() == q.len(),
        forall|i: int| 0 <= i < p.len() ==> #[trigger] q[i].0 == p[i].0 && q[i].1 == p[i].1 + c,
    ensures
        slope(q) == slope(p),
{
    lemma_shifted_sums(p, q, c);
    let n = p.len() as int;
    let sx = sum_x(p);
    let sy = sum_y(p);
    let sxy = sum_xy(p);
    assert(n * (sxy + c * sx) - sx * (sy + n * c) == n * sxy - sx * sy) by (nonlinear_arith);
}

/// The sums of readings that lie on a line.
proof fn lemma_line_sums(p: Readings, a: int, b: int)
    requires
        forall|i: int| 0 <= i < p.len() ==> (#[trigger] p[i]).1 == a + b * p[i].0,
    ensures
        sum_y(p) == a * p.len() + b * sum_x(p),
        sum_xy(p) == a * sum_x(p) + b * sum_xx(p),
    decreases p.len(),
{
    if p.len() > 0 {
        let n = p.len() as int;
        lemma_line_sums(p.drop_last(), a, b);
        assert(p[n - 1].1 == a + b * p[n - 1].0);
        let x = p.last().0 as int;
        let sx = sum_x(p.drop_last());
        let sxx = sum_xx(p.drop_last());
        assert(x * (a + b * x) == a * x + b * (x * x)) by (nonlinear_arith);
        assert(a * (sx + x) == a * sx + a * x) by (nonlinear_arith);
        assert(b * (sx + x) == b * sx + b * x) by (nonlinear_arith);
        assert(b * (sxx + x * x) == b * sxx + b * (x * x)) by (nonlinear_arith);
        assert(a * (n - 1) + a == a * n) by (nonlinear_arith);
    } else {
        assert(a * 0 == 0 && b * 0 == 0) by (nonlinear_arith);
    }
}

/// A gap that changes by `b` every lap has the slope `b`.
pub proof fn slope_of_a_line(p: Readings, a: int, b: Micro)
    requires
        p.len() >= 2,
        spread(p) > 0,
        forall|i: int| 0 <= i < p.len() ==> (#[trigger] p[i]).1 == a + b * p[i].0,
    ensures
        slope(p) == Some(b),
{
    lemma_line_sums(p, a, b as int);
    let n = p.len() as int;
    let sx = sum_x(p);
    let sxx = sum_xx(p);
    let d = spread(p);
    let m = b as int;
    assert(n * (a * sx + m * sxx) - sx * (a * n + m * sx) == m * (n * sxx - sx * sx))
        by (nonlinear_arith);
    assert((m * d) / d == m) by (nonlinear_arith)
        requires
            d > 0,
    ;
}

/// Sum of the squared distances of the laps from `x`.
spec fn distance_from(p: Readings, x: int) -> int {
    p.len() * (x * x) - 2 * (x * sum_x(p)) + sum_xx(p)
}

/// That sum is not negative, and positive where a lap is not `x`.
proof fn lemma_distance_from(p: Readings, x: int)
    ensures
        distance_from(p, x) >= 0,
        p.len() > 0 && p[0].0 != x ==> distance_from(p, x) > 0,
    decreases p.len(),
{
    if p.len() > 0 {
        let front = p.drop_last();
        let y = p.last().0 as int;
        let n = front.len() as int;
        let sx = sum_x(front);
        lemma_distance_from(front, x);
        assert((n + 1) * (x * x) - 2 * (x * (sx + y)) == n * (x * x) - 2 * (x * sx) + (x - y) * (x
            - y) - y * y) by (nonlinear_arith);
        assert((x - y) * (x - y) >= 0) by (nonlinear_arith);
        if p.len() == 1 && y != x {
            assert((x - y) * (x - y) > 0) by (nonlinear_arith)
                requires
                    x != y,
            ;
        } else if p.len() > 1 {
            assert(front[0] == p[0]);
        }
    } else {
        assert(0 * (x * x) == 0) by (nonlinear_arith);
        assert(x * 0 == 0) by (nonlinear_arith);
    }
}

/// Two or more readings of different laps always have a slope.
pub proof fn different_laps_have_a_slope(p: Readings)
    requires
        p.len() >= 2,
        laps_differ(p),
    ensures
        spread(p) > 0,
        slope(p) is Some,
    decreases p.len(),
{
    let front = p.drop_last();
    let x = p.last().0 as int;
    let n = front.len() as int;
    let sx = sum_x(front);
    let sxx = sum_xx(front);
    assert((n + 1) * (sxx + x * x) - (sx + x) * (sx + x) == (n * sxx - sx * sx) + (n * (x * x) - 2
        * (x * sx) + sxx)) by (nonlinear_arith);
    lemma_distance_from(front, x);
    assert(p[0].0 != p[p.len() - 1].0);
    if p.len() > 2 {
        assert(laps_differ(front)) by {
            assert forall|i: int, j: int| 0 <= i < j < front.len() implies #[trigger] front[i].0
                != #[trigger] front[j].0 by {
                assert(p[i].0 != p[j].0);
            }
        }
        different_laps_have_a_slope(front);
    } else {
        let y = front.last().0 as int;
        assert(front.drop_last().len() == 0);
        assert(sum_x(front) == y && sum_xx(front) == y * y) by {
            reveal_with_fuel(sum_x, 2);
            reveal_with_fuel(sum_xx, 2);
        }
        assert(1 * (y * y) - y * y == 0) by (nonlinear_arith);
    }
}

/// Whether a row holds the slopes of a car at the anchors below `buckets`: each anchor
/// that has one, with that slope, once.
pub open spec fn holds_slopes(
    s: Seq<Numbered>,
    m: Map<u16, Readings>,
    min_readings: usize,
    car_idx: u8,
    buckets: nat,
) -> bool {
    &&& s.no_duplicates()
    &&& forall|x: Numbered| #[trigger]
        s.contains(x) <==> x.0 < buckets && anchor_slope(m, min_readings, x.0, car_idx) == Some(
            x.1,
        )
}

/// The slopes of a car stand in rising order, and are all there.
proof fn lemma_car_slopes(
    m: Map<u16, Readings>,
    min_readings: usize,
    car_idx: u8,
    buckets: nat,
)
    requires
        buckets <= 256,
    ensures
        rises(car_slopes(m, min_readings, car_idx, buckets)),
        holds_slopes(
            car_slopes(m, min_readings, car_idx, buckets),
            m,
            min_readings,
            car_idx,
            buckets,
        ),
        car_slopes(m, min_readings, car_idx, buckets).len() <= buckets,
    decreases buckets,
{
    broadcast use vstd::seq_lib::group_to_multiset_ensures;

    if buckets > 0 {
        let below = (buckets - 1) as nat;
        lemma_car_slopes(m, min_readings, car_idx, below);
        let rest = car_slopes(m, min_readings, car_idx, below);
        let all = car_slopes(m, min_readings, car_idx, buckets);
        if let Some(x) = anchor_slope(m, min_readings, below as u8, car_idx) {
            let new = (below as u8, x);
            ranked_insert_keeps_order(rest, new);
            assert(!rest.contains(new));
            rest.lemma_multiset_has_no_duplicates();
            assert(rest.to_multiset().count(new) == 0);
            assert forall|y: Numbered| all.to_multiset().contains(y) implies
                all.to_multiset().count(y) == 1 by {
                assert(y != new ==> rest.to_multiset().contains(y));
            }
            all.lemma_multiset_has_no_duplicates_conv();
            assert forall|y: Numbered| #[trigger] all.contains(y) <==> y.0 < buckets
                && anchor_slope(m, min_readings, y.0, car_idx) == Some(y.1) by {
                assert(all.contains(y) <==> all.to_multiset().count(y) > 0);
                assert(rest.contains(y) <==> rest.to_multiset().count(y) > 0);
            }
        } else {
            assert forall|y: Numbered| #[trigger] all.contains(y) <==> y.0 < buckets
                && anchor_slope(m, min_readings, y.0, car_idx) == Some(y.1) by {
                assert(rest.contains(y) <==> y.0 < below && anchor_slope(
                    m,
                    min_readings,
                    y.0,
                    car_idx,
                ) == Some(y.1));
            }
        }
    }
}

/// Whether a summary says of a car what its slopes are: the middle of them in rising
/// order, how many there are, and at how many anchors the car closes in.
pub open spec fn sums_up(
    info: CarSlopeInfo,
    s: Seq<Numbered>,
    m: Map<u16, Readings>,
    min_readings: usize,
    car_idx: u8,
) -> bool {
    &&& rises(s)
    &&& holds_slopes(s, m, min_readings, car_idx, 256)
    &&& is_middle(s, info.median)
    &&& 2 * at_most(s, info.median as int) >= s.len()
    &&& 2 * at_least(s, info.median as int) >= s.len()
    &&& info.n_buckets == s.len()
    &&& info.n_agree == at_most(s, -1)
}

/// Whether a summary says of a car what its slopes are, of which there is one at least.
pub open spec fn describes(
    info: CarSlopeInfo,
    m: Map<u16, Readings>,
    min_readings: usize,
    car_idx: u8,
) -> bool {
    exists|s: Seq<Numbered>|
        s.len() > 0 && #[trigger] sums_up(info, s, m, min_readings, car_idx)
}

/// The values below zero are those at or below the last one before it.
proof fn lemma_negatives(s: Seq<Numbered>)
    ensures
        negatives(s) == at_most(s, -1),
        negatives(s) <= s.len(),
    decreases s.len(),
{
    if s.len() > 0 {
        lemma_negatives(s.drop_last());
    }
}

/// The summary of a car's slopes at all anchors.
proof fn lemma_summary_of_one(m: Map<u16, Readings>, min_readings: usize, car_idx: u8)
    ensures
        ({
            let s = car_slopes(m, min_readings, car_idx, 256);
            s.len() > 0 ==> sums_up(car_summary(s), s, m, min_readings, car_idx)
        }),
{
    let s = car_slopes(m, min_readings, car_idx, 256);
    lemma_car_slopes(m, min_readings, car_idx, 256);
    lemma_negatives(s);
    if s.len() > 0 {
        the_median_lies_in_the_middle(s);
    }
}

/// Every car with a slope at some anchor has a summary, by car, and no other car has
/// one. The median of a summary is the middle of that car's slopes at the anchors.
pub proof fn each_car_has_the_median_of_its_slopes(
    m: Map<u16, Readings>,
    min_readings: usize,
    cars: nat,
)
    requires
        cars <= 256,
    ensures
        forall|k: int|
            0 <= k < car_summaries(m, min_readings, cars).len() ==> describes(
                (#[trigger] car_summaries(m, min_readings, cars)[k]).1,
                m,
                min_readings,
                car_summaries(m, min_readings, cars)[k].0,
            ),
        forall|k: int|
            0 <= k < car_summaries(m, min_readings, cars).len() ==> (#[trigger] car_summaries(
                m,
                min_readings,
                cars,
            )[k]).0 < cars,
        forall|j: int, k: int|
            0 <= j < k < car_summaries(m, min_readings, cars).len() ==> (#[trigger] car_summaries(
                m,
                min_readings,
                cars,
            )[j]).0 < (#[trigger] car_summaries(m, min_readings, cars)[k]).0,
        forall|car: u8, bucket: u8|
            car < cars && (#[trigger] anchor_slope(m, min_readings, bucket, car)) is Some
                ==> exists|k: int|
                0 <= k < car_summaries(m, min_readings, cars).len() && (#[trigger] car_summaries(
                    m,
                    min_readings,
                    cars,
                )[k]).0 == car,
    decreases cars,
{
    if cars > 0 {
        let below = (cars - 1) as nat;
        let last = below as u8;
        each_car_has_the_median_of_its_slopes(m, min_readings, below);
        let rest = car_summaries(m, min_readings, below);
        let all = car_summaries(m, min_readings, cars);
        let s = car_slopes(m, min_readings, last, 256);
        lemma_car_slopes(m, min_readings, last, 256);
        lemma_summary_of_one(m, min_readings, last);
        assert forall|k: int| 0 <= k < all.len() implies describes(
            (#[trigger] all[k]).1,
            m,
            min_readings,
            all[k].0,
        ) by {
            if k < rest.len() {
                assert(all[k] == rest[k]);
            } else {
                assert(sums_up(all[k].1, s, m, min_readings, all[k].0));
            }
        }
        assert forall|car: u8, bucket: u8|
            car < cars && (#[trigger] anchor_slope(m, min_readings, bucket, car)) is Some implies exists|
            k: int,
        | 0 <= k < all.len() && (#[trigger] all[k]).0 == car by {
            if car < below {
                let k = choose|k: int| 0 <= k < rest.len() && (#[trigger] rest[k]).0 == car;
                assert(all[k] == rest[k]);
            } else {
                let x = anchor_slope(m, min_readings, bucket, car)->0;
                assert(s.contains((bucket, x)));
                assert(all[rest.len() as int].0 == car);
            }
        }
    }
}

/// Sum over the readings of the lap's distance from `x` times the gap's from `y`.
pub open spec fn against(p: Readings, x: int, y: int) -> int
    decreases p.len(),
{
    if p.len() == 0 {
        0
    } else {
        against(p.drop_last(), x, y) + (p.last().0 - x) * (p.last().1 - y)
    }
}

/// Sum over all pairs of readings of the distance in laps times the change of the gap.
pub open spec fn pair_changes(p: Readings) -> int
    decreases p.len(),
{
    if p.len() == 0 {
        0
    } else {
        let front = p.drop_last();
        pair_changes(front) + against(front, p.last().0 as int, p.last().1 as int)
    }
}

/// Sum over the readings of the squared distance of the lap from `x`.
pub open spec fn apart_from(p: Readings, x: int) -> int
    decreases p.len(),
{
    if p.len() == 0 {
        0
    } else {
        apart_from(p.drop_last(), x) + (p.last().0 - x) * (p.last().0 - x)
    }
}

/// Sum over all pairs of readings of the squared distance in laps.
pub open spec fn pair_distances(p: Readings) -> int
    decreases p.len(),
{
    if p.len() == 0 {
        0
    } else {
        let front = p.drop_last();
        pair_distances(front) + apart_from(front, p.last().0 as int)
    }
}

proof fn lemma_against(p: Readings, x: int, y: int)
    ensures
        against(p, x, y) == sum_xy(p) - x * sum_y(p) - y * sum_x(p) + p.len() * (x * y),
        apart_from(p, x) == sum_xx(p) - 2 * (x * sum_x(p)) + p.len() * (x * x),
    decreases p.len(),
{
    if p.len() > 0 {
        let f = p.drop_last();
        lemma_against(f, x, y);
        let a = p.last().0 as int;
        let b = p.last().1 as int;
        let n = f.len() as int;
        let sx = sum_x(f);
        let sy = sum_y(f);
        assert((a - x) * (b - y) == a * b - x * b - y * a + x * y) by (nonlinear_arith);
        assert((a - x) * (a - x) == a * a - 2 * (x * a) + x * x) by (nonlinear_arith);
        assert(x * (sy + b) == x * sy + x * b) by (nonlinear_arith);
        assert(y * (sx + a) == y * sx + y * a) by (nonlinear_arith);
        assert(x * (sx + a) == x * sx + x * a) by (nonlinear_arith);
        assert((n + 1) * (x * y) == n * (x * y) + x * y) by (nonlinear_arith);
        assert((n + 1) * (x * x) == n * (x * x) + x * x) by (nonlinear_arith);
    } else {
        assert(x * 0 == 0 && y * 0 == 0) by (nonlinear_arith);
        assert(0 * (x * y) == 0 && 0 * (x * x) == 0) by (nonlinear_arith);
    }
}

proof fn lemma_pairs(p: Readings)
    ensures
        pair_changes(p) == covariation(p),
        pair_distances(p) == spread(p),
    decreases p.len(),
{
    if p.len() > 0 {
        let f = p.drop_last();
        let x = p.last().0 as int;
        let y = p.last().1 as int;
        let n = f.len() as int;
        let sx = sum_x(f);
        let sy = sum_y(f);
        let sxx = sum_xx(f);
        let sxy = sum_xy(f);
        lemma_pairs(f);
        lemma_against(f, x, y);
        assert((n + 1) * (sxy + x * y) - (sx + x) * (sy + y) == (n * sxy - sx * sy) + (sxy - x * sy
            - y * sx + n * (x * y))) by (nonlinear_arith);
        assert((n + 1) * (sxx + x * x) - (sx + x) * (sx + x) == (n * sxx - sx * sx) + (sxx - 2 * (x
            * sx) + n * (x * x))) by (nonlinear_arith);
    } else {
        assert(0 * 0 == 0) by (nonlinear_arith);
    }
}

/// The slope is the change of the gap per lap, taken over all pairs of readings, each with
/// the weight of its distance: the changes of the pairs, times their distances, over the
/// squared distances, rounded down. Readings that are all of one lap have none.
pub proof fn the_slope_is_that_of_all_pairs(p: Readings)
    ensures
        p.len() < 2 ==> slope(p) is None,
        p.len() >= 2 ==> (slope(p) is Some <==> pair_distances(p) > 0),
        slope(p) matches Some(b) ==> (i64::MIN < b < i64::MAX ==> b * pair_distances(p)
            <= pair_changes(p) < (b + 1) * pair_distances(p)),
{
    lemma_pairs(p);
    if slope(p) is Some {
        let d = spread(p);
        let c = covariation(p);
        assert((c / d) * d <= c < (c / d + 1) * d) by (nonlinear_arith)
            requires
                d > 0,
        ;
    }
}

/// The lowest slope at an anchor is that of a car, and no car's is lower. There is none
/// only where no car has one.
pub proof fn the_steepest_is_the_lowest(
    m: Map<u16, Readings>,
    min_readings: usize,
    bucket: u8,
    cars: nat,
)
    requires
        cars <= 256,
    ensures
        match steepest(m, min_readings, bucket, cars) {
            Some(x) => {
                &&& exists|car: u8|
                    car < cars && #[trigger] anchor_slope(m, min_readings, bucket, car) == Some(x)
                &&& forall|car: u8|
                    car < cars && (#[trigger] anchor_slope(m, min_readings, bucket, car)) is Some
                        ==> x <= anchor_slope(m, min_readings, bucket, car)->0
            },
            None => forall|car: u8|
                car < cars ==> (#[trigger] anchor_slope(m, min_readings, bucket, car)) is None,
        },
    decreases cars,
{
    if cars > 0 {
        the_steepest_is_the_lowest(m, min_readings, bucket, (cars - 1) as nat);
        let last = (cars - 1) as u8;
        let here = anchor_slope(m, min_readings, bucket, last);
        assert(here == anchor_slope(m, min_readings, bucket, last));
    }
}

/// Every anchor at which some car has a slope is listed, in the order of the anchors, with
/// the lowest slope there, and no other anchor is.
pub proof fn every_anchor_has_its_lowest_slope(
    m: Map<u16, Readings>,
    min_readings: usize,
    buckets: nat,
)
    requires
        buckets <= 256,
    ensures
        ({
            let s = bucket_slopes(m, min_readings, buckets);
            &&& forall|j: int, k: int|
                0 <= j < k < s.len() ==> (#[trigger] s[j]).0 < (#[trigger] s[k]).0
            &&& forall|k: int|
                0 <= k < s.len() ==> (#[trigger] s[k]).0 < buckets && steepest(
                    m,
                    min_readings,
                    s[k].0,
                    256,
                ) == Some(s[k].1)
            &&& forall|bucket: u8|
                bucket < buckets && (#[trigger] steepest(m, min_readings, bucket, 256)) is Some
                    ==> exists|k: int| 0 <= k < s.len() && (#[trigger] s[k]).0 == bucket
        }),
    decreases buckets,
{
    if buckets > 0 {
        let below = (buckets - 1) as nat;
        every_anchor_has_its_lowest_slope(m, min_readings, below);
        let rest = bucket_slopes(m, min_readings, below);
        let s = bucket_slopes(m, min_readings, buckets);
        assert forall|bucket: u8|
            bucket < buckets && (#[trigger] steepest(m, min_readings, bucket, 256))
                is Some implies exists|k: int|
            0 <= k < s.len() && (#[trigger] s[k]).0 == bucket by {
            if bucket < below {
                let k = choose|k: int| 0 <= k < rest.len() && (#[trigger] rest[k]).0 == bucket;
                assert(s[k] == rest[k]);
            } else {
                assert(s[rest.len() as int].0 == bucket);
            }
        }
    }
}

/// A reading of a lap that is done, at an anchor and of a car, is one of those that the
/// slope there is made of exactly where it is clean.
pub proof fn clean_readings_count(
    samples: Seq<AnchorReading>,
    reading: AnchorReading,
    max_lap: u8,
)
    requires
        reading.lap <= max_lap,
    ensures
        ({
            let before = readings_of(grouped(samples, max_lap), reading.bucket, reading.car_idx);
            let after = readings_of(
                grouped(samples.push(reading), max_lap),
                reading.bucket,
                reading.car_idx,
            );
            if reading.is_clean {
                after == before.push((reading.lap, reading.gap_s))
            } else {
                after == before
            }
        }),
{
    assert(samples.push(reading).drop_last() =~= samples);
}

} // verus!
