//! Gap readings at fixed places of the track.

use std::collections::HashSet;

use vstd::prelude::*;

use crate::fixed::{Micro, ONE};

verus! {

/// One recorded gap measurement at a spatial anchor.
#[derive(Debug, Clone, Copy, PartialEq, Eq, Structural)]
pub struct AnchorReading {
    pub lap: u8,
    pub bucket: u8,
    pub gap_s: Micro,
    pub car_idx: u8,
    /// False under a yellow flag and on pit road.
    pub is_clean: bool,
}

/// What a sampler holds: the number of anchors and the readings in the order
/// they were taken.
#[verifier::ext_equal]
pub struct SamplerView {
    pub n_buckets: usize,
    pub samples: Seq<AnchorReading>,
}

/// The anchor that lies at `lap_dist_pct` where the lap has `n_buckets` of them.
/// A place before the line counts as the line.
pub open spec fn anchor_bucket(lap_dist_pct: Micro, n_buckets: usize) -> u8 {
    let along = if lap_dist_pct < 0 {
        0
    } else {
        lap_dist_pct as int
    };
    ((along * n_buckets as int / ONE as int) % (n_buckets as int) % 256) as u8
}

/// Whether a reading of this lap, anchor and car is held.
pub open spec fn recorded(
    samples: Seq<AnchorReading>,
    lap: u8,
    bucket: u8,
    car_idx: u8,
) -> bool {
    exists|i: int| #[trigger] is_reading_of(samples, i, lap, bucket, car_idx)
}

/// Whether reading `i` is of this lap, anchor and car.
pub open spec fn is_reading_of(
    samples: Seq<AnchorReading>,
    i: int,
    lap: u8,
    bucket: u8,
    car_idx: u8,
) -> bool {
    0 <= i < samples.len() && samples[i].lap == lap && samples[i].bucket == bucket
        && samples[i].car_idx == car_idx
}

/// The sampler after a car was seen at a gap: the first crossing of an anchor in
/// a lap is kept, later ones are not.
pub open spec fn sampled(
    s: SamplerView,
    lap: u8,
    lap_dist_pct: Micro,
    gap_s: Micro,
    car_idx: u8,
    is_clean: bool,
) -> SamplerView {
    let bucket = anchor_bucket(lap_dist_pct, s.n_buckets);
    if recorded(s.samples, lap, bucket, car_idx) {
        s
    } else {
        SamplerView {
            samples: s.samples.push(AnchorReading { lap, bucket, gap_s, car_idx, is_clean }),
            ..s
        }
    }
}

/// No lap, anchor and car is held twice.
pub open spec fn first_crossings_only(samples: Seq<AnchorReading>) -> bool {
    forall|i: int, j: int|
        0 <= i < j < samples.len() ==> !(#[trigger] samples[i].lap == #[trigger] samples[j].lap
            && samples[i].bucket == samples[j].bucket && samples[i].car_idx == samples[j].car_idx)
}

/// The number under which a crossing is remembered.
spec fn crossing_key(lap: u8, bucket: u8, car_idx: u8) -> u32 {
    (lap as int * 65536 + bucket as int * 256 + car_idx as int) as u32
}

/// Captures the first gap reading per (lap, bucket, car_idx) spatial anchor.
pub struct AnchorSampler {
    n_buckets: usize,
    seen: HashSet<u32>,
    samples: Vec<AnchorReading>,
}

impl View for AnchorSampler {
    type V = SamplerView;

    closed spec fn view(&self) -> SamplerView {
        SamplerView { n_buckets: self.n_buckets, samples: self.samples@ }
    }
}

impl AnchorSampler {
    #[verifier::type_invariant]
    spec fn inv(self) -> bool {
        &&& first_crossings_only(self.samples@)
        &&& forall|lap: u8, bucket: u8, car_idx: u8| #[trigger]
            self.seen@.contains(crossing_key(lap, bucket, car_idx)) <==> recorded(
                self.samples@,
                lap,
                bucket,
                car_idx,
            )
    }

    /// A sampler with `n_buckets` anchors and no readings.
    pub fn new(n_buckets: usize) -> (r: Self)
        ensures
            r@ == (SamplerView { n_buckets, samples: Seq::empty() }),
    {
        broadcast use vstd::std_specs::hash::group_hash_axioms;

        AnchorSampler { n_buckets, seen: HashSet::new(), samples: Vec::new() }
    }

    /// How many anchors the lap has.
    pub fn n_buckets(&self) -> (r: usize)
        ensures
            r == self@.n_buckets,
    {
        self.n_buckets
    }

    /// The readings, oldest first.
    pub fn samples(&self) -> (r: &Vec<AnchorReading>)
        ensures
            r@ == self@.samples,
            first_crossings_only(r@),
    {
        proof {
            use_type_invariant(&*self);
        }
        &self.samples
    }

    /// Takes a reading of `car_idx` at the player's place on the lap, unless this
    /// lap already has one of that car at that anchor. Says whether it was taken.
    pub fn update(
        &mut self,
        lap: u8,
        lap_dist_pct: Micro,
        gap_s: Micro,
        car_idx: u8,
        is_clean: bool,
    ) -> (r: bool)
        requires
            old(self)@.n_buckets > 0,
        ensures
            final(self)@ == sampled(old(self)@, lap, lap_dist_pct, gap_s, car_idx, is_clean),
            r == !recorded(
                old(self)@.samples,
                lap,
                anchor_bucket(lap_dist_pct, old(self)@.n_buckets),
                car_idx,
            ),
    {
        broadcast use vstd::std_specs::hash::group_hash_axioms;

        proof {
            use_type_invariant(&*self);
        }
        let bucket: u8 = bucket_at(lap_dist_pct, self.n_buckets);
        let key: u32 = lap as u32 * 65536 + bucket as u32 * 256 + car_idx as u32;
        assert(key == crossing_key(lap, bucket, car_idx));
        if self.seen.contains(&key) {
            return false;
        }
        let reading: AnchorReading = AnchorReading { lap, bucket, gap_s, car_idx, is_clean };
        let mut taken: AnchorSampler = AnchorSampler::new(self.n_buckets);
        std::mem::swap(&mut taken, self);
        let AnchorSampler { n_buckets, mut seen, mut samples } = taken;
        let ghost before = samples@;
        samples.push(reading);
        seen.insert(key);
        proof {
            lemma_recorded_after_push(before, reading);
            lemma_crossing_keys_differ();
            assert(first_crossings_only(samples@)) by {
                assert forall|i: int, j: int| 0 <= i < j < samples@.len() implies !(
                #[trigger] samples@[i].lap == #[trigger] samples@[j].lap && samples@[i].bucket
                    == samples@[j].bucket && samples@[i].car_idx == samples@[j].car_idx) by {
                    if j == before.len() && samples@[i].lap == lap && samples@[i].bucket == bucket
                        && samples@[i].car_idx == car_idx {
                        assert(is_reading_of(before, i, lap, bucket, car_idx));
                    }
                }
            }
        }
        *self = AnchorSampler { n_buckets, seen, samples };
        true
    }
}

/// A new reading adds its own crossing and no other.
proof fn lemma_recorded_after_push(before: Seq<AnchorReading>, reading: AnchorReading)
    ensures
        forall|lap: u8, bucket: u8, car_idx: u8| #[trigger]
            recorded(before.push(reading), lap, bucket, car_idx) <==> (recorded(
                before,
                lap,
                bucket,
                car_idx,
            ) || (lap == reading.lap && bucket == reading.bucket && car_idx == reading.car_idx)),
{
    let after = before.push(reading);
    assert forall|lap: u8, bucket: u8, car_idx: u8| #[trigger]
        recorded(after, lap, bucket, car_idx) <==> (recorded(before, lap, bucket, car_idx) || (lap
            == reading.lap && bucket == reading.bucket && car_idx == reading.car_idx)) by {
        if recorded(before, lap, bucket, car_idx) {
            let i = choose|i: int| is_reading_of(before, i, lap, bucket, car_idx);
            assert(is_reading_of(after, i, lap, bucket, car_idx));
        }
        if lap == reading.lap && bucket == reading.bucket && car_idx == reading.car_idx {
            assert(is_reading_of(after, before.len() as int, lap, bucket, car_idx));
        }
        if recorded(after, lap, bucket, car_idx) {
            let i = choose|i: int| is_reading_of(after, i, lap, bucket, car_idx);
            if i < before.len() {
                assert(is_reading_of(before, i, lap, bucket, car_idx));
            }
        }
    }
}

/// No two crossings share a number.
proof fn lemma_crossing_keys_differ()
    ensures
        forall|l1: u8, b1: u8, c1: u8, l2: u8, b2: u8, c2: u8|
            #![trigger crossing_key(l1, b1, c1), crossing_key(l2, b2, c2)]
            crossing_key(l1, b1, c1) == crossing_key(l2, b2, c2) ==> l1 == l2 && b1 == b2 && c1
                == c2,
{
}

/// The anchor at a place of the lap.
pub fn bucket_at(lap_dist_pct: Micro, n_buckets: usize) -> (r: u8)
    requires
        n_buckets > 0,
    ensures
        r == anchor_bucket(lap_dist_pct, n_buckets),
{
    let along: u128 = if lap_dist_pct < 0 {
        0
    } else {
        lap_dist_pct as u128
    };
    let n: u128 = n_buckets as u128;
    proof {
        assert(along * n <= 0x7fff_ffff_ffff_ffff * 0xffff_ffff_ffff_ffff) by (nonlinear_arith)
            requires
                along <= 0x7fff_ffff_ffff_ffff,
                n <= 0xffff_ffff_ffff_ffff,
        ;
    }
    let place: u128 = along * n / (ONE as u128);
    (place % n % 256) as u8
}

/// The anchor of a place is the one whose share of the lap the place lies in: the lap is
/// cut into as many equal shares as there are anchors.
pub proof fn an_anchor_has_its_share_of_the_lap(lap_dist_pct: Micro, n_buckets: usize)
    requires
        0 <= lap_dist_pct < 1_000_000,
        0 < n_buckets <= 256,
    ensures
        ({
            let b = anchor_bucket(lap_dist_pct, n_buckets);
            b < n_buckets && b * 1_000_000 <= lap_dist_pct * n_buckets < (b + 1) * 1_000_000
        }),
{
    let x = lap_dist_pct * n_buckets;
    let n = n_buckets as int;
    assert(0 <= x < 1_000_000 * n) by (nonlinear_arith)
        requires
            x == lap_dist_pct * n,
            0 <= lap_dist_pct < 1_000_000,
            n > 0,
    ;
    assert(0 <= x / 1_000_000 < n);
    assert((x / 1_000_000) % n == x / 1_000_000) by (nonlinear_arith)
        requires
            0 <= x / 1_000_000 < n,
    ;
}

/// The first reading of a car at an anchor in a lap is kept with its gap, and later ones
/// change nothing. Readings are never lost, and no other is added.
pub proof fn the_first_crossing_is_kept(
    s: SamplerView,
    lap: u8,
    lap_dist_pct: Micro,
    gap_s: Micro,
    car_idx: u8,
    is_clean: bool,
)
    ensures
        ({
            let b = anchor_bucket(lap_dist_pct, s.n_buckets);
            let after = sampled(s, lap, lap_dist_pct, gap_s, car_idx, is_clean);
            let known = exists|i: int|
                0 <= i < s.samples.len() && (#[trigger] s.samples[i]).lap == lap
                    && s.samples[i].bucket == b && s.samples[i].car_idx == car_idx;
            &&& known ==> after.samples == s.samples
            &&& !known ==> after.samples == s.samples.push(
                AnchorReading { lap, bucket: b, gap_s, car_idx, is_clean },
            )
            &&& after.n_buckets == s.n_buckets
        }),
{
    let b = anchor_bucket(lap_dist_pct, s.n_buckets);
    if exists|i: int|
        0 <= i < s.samples.len() && (#[trigger] s.samples[i]).lap == lap && s.samples[i].bucket
            == b && s.samples[i].car_idx == car_idx {
        let i = choose|i: int|
            0 <= i < s.samples.len() && (#[trigger] s.samples[i]).lap == lap
                && s.samples[i].bucket == b && s.samples[i].car_idx == car_idx;
        assert(is_reading_of(s.samples, i, lap, b, car_idx));
    } else if recorded(s.samples, lap, b, car_idx) {
        let i = choose|i: int| is_reading_of(s.samples, i, lap, b, car_idx);
        assert(s.samples[i].lap == lap);
    }
}

} // verus!
