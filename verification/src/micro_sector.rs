//! Where on the lap time is won and lost against the driver's own best.

use vstd::prelude::*;

use crate::battle_state::place_of;
use crate::fixed::{clamp, minus, plus, quotient, Micro, ONE};
use crate::race_event::RaceEvent;

verus! {

/// Loss at one anchor below which it counts as jitter, in seconds.
pub const MIN_BUCKET_DELTA_S: i64 = 5_000;

/// Loss over a run of anchors below which it is not reported, in seconds.
pub const MIN_STREAK_DELTA_S: i64 = 20_000;

/// Segment times of the lap that is being driven and the best ones so far.
pub struct MicroSectorTracker {
    pub best_seg: Vec<Option<Micro>>,
    pub current_lap_times: Vec<Option<Micro>>,
    pub last_anchor_time: Option<Micro>,
    pub last_anchor_bucket: Option<u8>,
    pub clean_laps_completed: u32,
}

/// What a [`MicroSectorTracker`] holds.
#[verifier::ext_equal]
pub struct SectorView {
    pub best_seg: Seq<Option<Micro>>,
    pub current_lap_times: Seq<Option<Micro>>,
    pub last_anchor_time: Option<Micro>,
    pub last_anchor_bucket: Option<u8>,
    pub clean_laps_completed: u32,
}

impl View for MicroSectorTracker {
    type V = SectorView;

    open spec fn view(&self) -> SectorView {
        SectorView {
            best_seg: self.best_seg@,
            current_lap_times: self.current_lap_times@,
            last_anchor_time: self.last_anchor_time,
            last_anchor_bucket: self.last_anchor_bucket,
            clean_laps_completed: self.clean_laps_completed,
        }
    }
}

/// Whether time is won or lost.
#[derive(Debug, Clone, Copy, PartialEq, Eq, Structural)]
pub enum Change {
    Gain,
    Loss,
}

/// A run of neighbouring anchors that all changed in one way.
#[derive(Debug, Clone, Copy, PartialEq, Eq, Structural)]
pub struct Streak {
    pub from: usize,
    pub to: usize,
    pub delta: Micro,
}

/// How much the segment at `i` changed that way, `None` where it did not.
pub open spec fn change_at(s: SectorView, change: Change, i: int) -> Option<Micro> {
    match (s.current_lap_times[i], s.best_seg[i]) {
        (Some(cur), Some(best)) => match change {
            Change::Gain => if cur < best {
                Some(crate::fixed::clamped(best - cur))
            } else {
                None
            },
            Change::Loss => if cur - best >= MIN_BUCKET_DELTA_S {
                Some(crate::fixed::clamped(cur - best))
            } else {
                None
            },
        },
        _ => None,
    }
}

/// The finished runs among the first `n` segments, and the run that reaches up
/// to them.
pub open spec fn runs(s: SectorView, change: Change, n: nat) -> (Seq<Streak>, Option<Streak>)
    decreases n,
{
    if n == 0 {
        (Seq::empty(), None)
    } else {
        let (done, open) = runs(s, change, (n - 1) as nat);
        let i = (n - 1) as usize;
        match (change_at(s, change, n - 1), open) {
            (Some(x), Some(r)) => (
                done,
                Some(Streak { to: i, delta: crate::fixed::clamped(r.delta + x), ..r }),
            ),
            (Some(x), None) => (done, Some(Streak { from: i, to: i, delta: x })),
            (None, Some(r)) => (done.push(r), None),
            (None, None) => (done, None),
        }
    }
}

/// All runs of a lap.
pub open spec fn streaks(s: SectorView, change: Change) -> Seq<Streak> {
    let (done, open) = runs(s, change, s.current_lap_times.len());
    match open {
        Some(r) => done.push(r),
        None => done,
    }
}

/// End of an anchor's segment on the lap.
pub open spec fn segment_end(bucket: u8, anchor_count: usize) -> Micro {
    ((bucket as int + 1) * ONE as int / anchor_count as int) as i64
}

/// The event of a run.
pub open spec fn streak_event(
    lap: u8,
    session_time: Micro,
    change: Change,
    r: Streak,
    anchor_count: usize,
) -> RaceEvent {
    let bucket_from = (r.from % 256) as u8;
    let bucket_to = (r.to % 256) as u8;
    let lap_dist_pct_from = crate::battle_state::anchor_place(bucket_from, anchor_count);
    let lap_dist_pct_to = segment_end(bucket_to, anchor_count);
    match change {
        Change::Gain => RaceEvent::MicroSectorGain {
            lap,
            session_time,
            bucket_from,
            bucket_to,
            lap_dist_pct_from,
            lap_dist_pct_to,
            cumulative_delta_s: r.delta,
            technique_hint: "carried more speed",
        },
        Change::Loss => RaceEvent::MicroSectorLoss {
            lap,
            session_time,
            bucket_from,
            bucket_to,
            lap_dist_pct_from,
            lap_dist_pct_to,
            cumulative_delta_s: r.delta,
        },
    }
}

/// Whether a run is worth reporting.
pub open spec fn notable(change: Change, r: Streak) -> bool {
    match change {
        Change::Gain => true,
        Change::Loss => r.delta >= MIN_STREAK_DELTA_S,
    }
}

/// The events of the runs, in the order of the lap.
pub open spec fn streak_events(
    lap: u8,
    session_time: Micro,
    change: Change,
    rs: Seq<Streak>,
    anchor_count: usize,
) -> Seq<RaceEvent>
    decreases rs.len(),
{
    if rs.len() == 0 {
        Seq::empty()
    } else {
        let rest = streak_events(lap, session_time, change, rs.drop_last(), anchor_count);
        if notable(change, rs.last()) {
            rest.push(streak_event(lap, session_time, change, rs.last(), anchor_count))
        } else {
            rest
        }
    }
}

/// The events of a finished lap: gains, then losses. A lap that is not clean, and
/// the first clean one, have none.
pub open spec fn lap_events(
    s: SectorView,
    lap: u8,
    session_time: Micro,
    clean_lap: bool,
) -> Seq<RaceEvent> {
    if clean_lap && s.clean_laps_completed > 0 {
        let n = s.current_lap_times.len() as usize;
        streak_events(lap, session_time, Change::Gain, streaks(s, Change::Gain), n)
            + streak_events(lap, session_time, Change::Loss, streaks(s, Change::Loss), n)
    } else {
        Seq::empty()
    }
}

/// The better of the best segment and the current one.
pub open spec fn better(best: Option<Micro>, current: Option<Micro>) -> Option<Micro> {
    match (best, current) {
        (Some(b), Some(c)) => if b <= c {
            best
        } else {
            current
        },
        (None, _) => current,
        (_, None) => best,
    }
}

/// The tracker after a crossing of an anchor: the segment that ends there took
/// the time since the anchor before.
pub open spec fn crossed(s: SectorView, session_time: Micro, bucket: u8) -> SectorView {
    SectorView {
        current_lap_times: match (s.last_anchor_time, s.last_anchor_bucket) {
            (Some(t), Some(b)) => if b != bucket && bucket < s.current_lap_times.len() {
                s.current_lap_times.update(
                    bucket as int,
                    Some(
                        if session_time > t {
                            crate::fixed::clamped(session_time - t)
                        } else {
                            0
                        },
                    ),
                )
            } else {
                s.current_lap_times
            },
            _ => s.current_lap_times,
        },
        last_anchor_time: Some(session_time),
        last_anchor_bucket: Some(bucket),
        ..s
    }
}

/// The segment that was completed last on this lap, and its time against the best one,
/// as far as they are known.
pub open spec fn last_segment(s: SectorView) -> (Option<u8>, Option<Micro>) {
    match s.last_anchor_bucket {
        Some(b) => if b < s.current_lap_times.len() {
            match (s.current_lap_times[b as int], s.best_seg[b as int]) {
                (Some(cur), Some(best)) => (Some(b), Some(crate::fixed::clamped(cur - best))),
                (Some(_), None) => (Some(b), None),
                (None, _) => (None, None),
            }
        } else {
            (None, None)
        },
        None => (None, None),
    }
}

/// The tracker after a lap: a clean lap leaves its better segments behind.
pub open spec fn lap_ended(s: SectorView, clean_lap: bool) -> SectorView {
    SectorView {
        best_seg: if clean_lap {
            Seq::new(
                s.best_seg.len(),
                |i: int| better(s.best_seg[i], s.current_lap_times[i]),
            )
        } else {
            s.best_seg
        },
        current_lap_times: Seq::new(s.current_lap_times.len(), |i: int| None),
        last_anchor_time: None,
        last_anchor_bucket: None,
        clean_laps_completed: if clean_lap && s.clean_laps_completed < u32::MAX {
            (s.clean_laps_completed + 1) as u32
        } else {
            s.clean_laps_completed
        },
    }
}

/// A tracker that has seen no lap.
pub open spec fn unused_tracker(anchor_count: usize) -> SectorView {
    SectorView {
        best_seg: Seq::new(anchor_count as nat, |i: int| None),
        current_lap_times: Seq::new(anchor_count as nat, |i: int| None),
        last_anchor_time: None,
        last_anchor_bucket: None,
        clean_laps_completed: 0,
    }
}

fn absent(n: usize) -> (r: Vec<Option<Micro>>)
    ensures
        r@ == Seq::new(n as nat, |i: int| None::<Micro>),
{
    let mut out: Vec<Option<Micro>> = Vec::new();
    let mut i: usize = 0;
    while i < n
        invariant
            i <= n,
            out@ == Seq::new(i as nat, |i: int| None::<Micro>),
        decreases n - i,
    {
        out.push(None);
        assert(out@ =~= Seq::new((i + 1) as nat, |i: int| None::<Micro>));
        i = i + 1;
    }
    out
}

impl MicroSectorTracker {
    /// There is a best segment for every anchor.
    pub open spec fn wf(self) -> bool {
        self.best_seg@.len() == self.current_lap_times@.len()
    }

    /// A tracker for a lap with `anchor_count` anchors.
    pub fn new(anchor_count: usize) -> (r: Self)
        ensures
            r.wf(),
            r@ == unused_tracker(anchor_count),
    {
        MicroSectorTracker {
            best_seg: absent(anchor_count),
            current_lap_times: absent(anchor_count),
            last_anchor_time: None,
            last_anchor_bucket: None,
            clean_laps_completed: 0,
        }
    }

    /// The segment that was completed last on this lap, and its time against the best
    /// one.
    pub fn latest(&self) -> (r: (Option<u8>, Option<Micro>))
        requires
            self.wf(),
        ensures
            r == last_segment(self@),
    {
        if let Some(b) = self.last_anchor_bucket {
            let i: usize = b as usize;
            if i < self.current_lap_times.len() {
                return match (self.current_lap_times[i], self.best_seg[i]) {
                    (Some(cur), Some(best)) => (Some(b), Some(minus(cur, best))),
                    (Some(_), None) => (Some(b), None),
                    (None, _) => (None, None),
                };
            }
        }
        (None, None)
    }

    /// To be called when the player crosses an anchor.
    pub fn on_anchor_crossing(&mut self, session_time: Micro, bucket: u8)
        requires
            old(self).wf(),
        ensures
            final(self).wf(),
            final(self)@ == crossed(old(self)@, session_time, bucket),
    {
        if let Some(last_time) = self.last_anchor_time {
            if let Some(last_bucket) = self.last_anchor_bucket {
                if bucket != last_bucket && (bucket as usize) < self.current_lap_times.len() {
                    let segment: Micro = if session_time > last_time {
                        minus(session_time, last_time)
                    } else {
                        0
                    };
                    self.current_lap_times.set(bucket as usize, Some(segment));
                }
            }
        }
        self.last_anchor_time = Some(session_time);
        self.last_anchor_bucket = Some(bucket);
    }

    /// Closes a lap: reports where it was faster and slower than the best, keeps
    /// its better segments where it was clean, and begins a new lap.
    pub fn on_lap_end(&mut self, lap: u8, session_time: Micro, clean_lap: bool) -> (r: Vec<
        RaceEvent,
    >)
        requires
            old(self).wf(),
        ensures
            final(self).wf(),
            final(self)@ == lap_ended(old(self)@, clean_lap),
            r@ == lap_events(old(self)@, lap, session_time, clean_lap),
    {
        let mut events: Vec<RaceEvent> = Vec::new();
        let ghost before = self@;
        let n: usize = self.current_lap_times.len();
        if clean_lap && self.clean_laps_completed > 0 {
            self.report(lap, session_time, Change::Gain, &mut events);
            self.report(lap, session_time, Change::Loss, &mut events);
            assert(events@ =~= lap_events(before, lap, session_time, clean_lap));
        }
        if clean_lap {
            let mut i: usize = 0;
            while i < n
                invariant
                    i <= n,
                    n == self.best_seg@.len(),
                    n == self.current_lap_times@.len(),
                    n == before.best_seg.len(),
                    self.current_lap_times@ == before.current_lap_times,
                    self.clean_laps_completed == before.clean_laps_completed,
                    forall|j: int|
                        0 <= j < i ==> #[trigger] self.best_seg@[j] == better(
                            before.best_seg[j],
                            before.current_lap_times[j],
                        ),
                    forall|j: int|
                        i <= j < n ==> #[trigger] self.best_seg@[j] == before.best_seg[j],
                decreases n - i,
            {
                let kept: Option<Micro> = match (self.best_seg[i], self.current_lap_times[i]) {
                    (Some(b), Some(c)) => if b <= c {
                        Some(b)
                    } else {
                        Some(c)
                    },
                    (None, c) => c,
                    (b, None) => b,
                };
                self.best_seg.set(i, kept);
                i = i + 1;
            }
            self.clean_laps_completed = self.clean_laps_completed.saturating_add(1);
        }
        self.current_lap_times = absent(n);
        self.last_anchor_time = None;
        self.last_anchor_bucket = None;
        assert(self@ =~= lap_ended(before, clean_lap));
        events
    }

    /// Appends the events of the runs of one kind.
    fn report(&self, lap: u8, session_time: Micro, change: Change, events: &mut Vec<RaceEvent>)
        requires
            self.wf(),
        ensures
            final(events)@ == old(events)@ + streak_events(
                lap,
                session_time,
                change,
                streaks(self@, change),
                self@.current_lap_times.len() as usize,
            ),
    {
        let found: Vec<Streak> = self.find_streaks(change);
        let n: usize = self.current_lap_times.len();
        let ghost before = events@;
        let mut i: usize = 0;
        while i < found.len()
            invariant
                i <= found@.len(),
                found@.len() > 0 ==> n > 0,
                events@ == before + streak_events(
                    lap,
                    session_time,
                    change,
                    found@.take(i as int),
                    n,
                ),
            decreases found.len() - i,
        {
            let r: Streak = found[i];
            proof {
                assert(found@.take(i + 1).drop_last() =~= found@.take(i as int));
            }
            let notable: bool = match change {
                Change::Gain => true,
                Change::Loss => r.delta >= MIN_STREAK_DELTA_S,
            };
            if notable {
                events.push(event_of(lap, session_time, change, r, n));
            }
            proof {
                assert(events@ =~= before + streak_events(
                    lap,
                    session_time,
                    change,
                    found@.take(i + 1),
                    n,
                ));
            }
            i = i + 1;
        }
        assert(found@.take(i as int) =~= found@);
    }

    /// The runs of one kind in the current lap.
    fn find_streaks(&self, change: Change) -> (r: Vec<Streak>)
        requires
            self.wf(),
        ensures
            r@ == streaks(self@, change),
            r@.len() > 0 ==> self@.current_lap_times.len() > 0,
    {
        let mut done: Vec<Streak> = Vec::new();
        let mut open: Option<Streak> = None;
        let n: usize = self.current_lap_times.len();
        let mut i: usize = 0;
        while i < n
            invariant
                i <= n,
                n == self.current_lap_times@.len(),
                n == self.best_seg@.len(),
                (done@, open) == runs(self@, change, i as nat),
            decreases n - i,
        {
            let here: Option<Micro> = match (self.current_lap_times[i], self.best_seg[i]) {
                (Some(cur), Some(best)) => match change {
                    Change::Gain => if cur < best {
                        Some(minus(best, cur))
                    } else {
                        None
                    },
                    Change::Loss => if minus(cur, best) >= MIN_BUCKET_DELTA_S {
                        Some(minus(cur, best))
                    } else {
                        None
                    },
                },
                _ => None,
            };
            match (here, open) {
                (Some(x), Some(r)) => {
                    open = Some(Streak { from: r.from, to: i, delta: plus(r.delta, x) });
                },
                (Some(x), None) => {
                    open = Some(Streak { from: i, to: i, delta: x });
                },
                (None, Some(r)) => {
                    done.push(r);
                    open = None;
                },
                (None, None) => {},
            }
            i = i + 1;
        }
        if let Some(r) = open {
            done.push(r);
        }
        done
    }
}

/// The event of a run.
fn event_of(lap: u8, session_time: Micro, change: Change, r: Streak, anchor_count: usize) -> (e:
    RaceEvent)
    requires
        anchor_count > 0,
    ensures
        e == streak_event(lap, session_time, change, r, anchor_count),
{
    let bucket_from: u8 = (r.from % 256) as u8;
    let bucket_to: u8 = (r.to % 256) as u8;
    let lap_dist_pct_from: Micro = place_of(bucket_from, anchor_count);
    let end: i128 = (bucket_to as i128 + 1) * ONE as i128;
    proof {
        let x = end as int;
        let d = anchor_count as int;
        assert(0 <= x / d <= x) by (nonlinear_arith)
            requires
                x >= 0,
                d > 0,
        ;
    }
    let lap_dist_pct_to: Micro = clamp(quotient(end, anchor_count as i128));
    match change {
        Change::Gain => RaceEvent::MicroSectorGain {
            lap,
            session_time,
            bucket_from,
            bucket_to,
            lap_dist_pct_from,
            lap_dist_pct_to,
            cumulative_delta_s: r.delta,
            technique_hint: "carried more speed",
        },
        Change::Loss => RaceEvent::MicroSectorLoss {
            lap,
            session_time,
            bucket_from,
            bucket_to,
            lap_dist_pct_from,
            lap_dist_pct_to,
            cumulative_delta_s: r.delta,
        },
    }
}

/// A best segment is never given up, and never replaced by a slower one.
pub proof fn best_segments_never_worsen(s: SectorView, clean_lap: bool, i: int)
    requires
        0 <= i < s.best_seg.len(),
        s.best_seg.len() == s.current_lap_times.len(),
        s.best_seg[i] is Some,
    ensures
        lap_ended(s, clean_lap).best_seg[i] matches Some(b) && b <= s.best_seg[i]->0,
{
}

/// A lap under a flag, through the pits or otherwise not clean teaches nothing.
pub proof fn an_unclean_lap_changes_no_best(s: SectorView)
    ensures
        lap_ended(s, false).best_seg == s.best_seg,
        lap_ended(s, false).clean_laps_completed == s.clean_laps_completed,
{
}

/// Whether the segment at `i` was faster than the best one, or slower than it by five
/// thousandths of a second or more. Either takes a time and a best time.
pub open spec fn changed(s: SectorView, change: Change, i: int) -> bool {
    s.current_lap_times[i] is Some && s.best_seg[i] is Some && match change {
        Change::Gain => s.current_lap_times[i]->0 < s.best_seg[i]->0,
        Change::Loss => s.current_lap_times[i]->0 - s.best_seg[i]->0 >= 5_000,
    }
}

/// Time that was won, or lost, in the segments from `from` up to before `upto`.
pub open spec fn total(s: SectorView, change: Change, from: int, upto: int) -> int
    decreases upto - from,
{
    if upto <= from {
        0
    } else {
        total(s, change, from, upto - 1) + match change {
            Change::Gain => s.best_seg[upto - 1]->0 - s.current_lap_times[upto - 1]->0,
            Change::Loss => s.current_lap_times[upto - 1]->0 - s.best_seg[upto - 1]->0,
        }
    }
}

/// Whether a run covers segments that all changed that way, with the time that they
/// won or lost together, as far as it can be held.
pub open spec fn covers(s: SectorView, change: Change, r: Streak) -> bool {
    &&& r.from <= r.to < s.current_lap_times.len()
    &&& forall|i: int| r.from <= i <= r.to ==> #[trigger] changed(s, change, i)
    &&& r.delta == crate::fixed::clamped(total(s, change, r.from as int, r.to + 1))
}

/// Whether no neighbour of a run changed that way.
pub open spec fn is_maximal(s: SectorView, change: Change, r: Streak) -> bool {
    &&& r.from > 0 ==> !changed(s, change, r.from - 1)
    &&& r.to + 1 < s.current_lap_times.len() ==> !changed(s, change, r.to + 1)
}

/// Whether a segment lies in a run.
pub open spec fn lies_in(r: Streak, i: int) -> bool {
    r.from <= i <= r.to
}

/// Whether runs follow each other with a segment between them at least.
pub open spec fn are_apart(rs: Seq<Streak>) -> bool {
    forall|j: int, k: int|
        0 <= j < k < rs.len() ==> (#[trigger] rs[j]).to + 1 < (#[trigger] rs[k]).from
}

/// What segments that changed won or lost together is not negative.
proof fn lemma_total_is_positive(s: SectorView, change: Change, from: int, upto: int)
    requires
        forall|i: int| from <= i < upto ==> #[trigger] changed(s, change, i),
    ensures
        total(s, change, from, upto) >= 0,
    decreases upto - from,
{
    if upto > from {
        lemma_total_is_positive(s, change, from, upto - 1);
        assert(changed(s, change, upto - 1));
    }
}

/// What is known of the runs among the first `n` segments.
proof fn lemma_runs(s: SectorView, change: Change, n: nat)
    requires
        n <= s.current_lap_times.len(),
        s.current_lap_times.len() <= usize::MAX,
    ensures
        ({
            let (done, open) = runs(s, change, n);
            &&& forall|k: int|
                0 <= k < done.len() ==> covers(s, change, #[trigger] done[k]) && is_maximal(
                    s,
                    change,
                    done[k],
                ) && done[k].to + 1 < n
            &&& are_apart(done)
            &&& match open {
                Some(r) => {
                    &&& covers(s, change, r)
                    &&& r.to == n - 1
                    &&& r.from > 0 ==> !changed(s, change, r.from - 1)
                    &&& forall|k: int| 0 <= k < done.len() ==> (#[trigger] done[k]).to + 1 < r.from
                },
                None => n > 0 ==> !changed(s, change, n - 1),
            }
            &&& forall|i: int|
                0 <= i < n && #[trigger] changed(s, change, i) ==> (open matches Some(r) && lies_in(
                    r,
                    i,
                )) || exists|k: int| 0 <= k < done.len() && lies_in(#[trigger] done[k], i)
        }),
    decreases n,
{
    if n > 0 {
        let below = (n - 1) as nat;
        lemma_runs(s, change, below);
        let (rest, left) = runs(s, change, below);
        let (done, open) = runs(s, change, n);
        let here = change_at(s, change, n - 1);
        assert(here is Some <==> changed(s, change, n - 1));
        if here is Some {
            match left {
                Some(r) => {
                    lemma_total_is_positive(s, change, r.from as int, r.to + 1);
                    assert(total(s, change, r.from as int, n as int) == total(
                        s,
                        change,
                        r.from as int,
                        n - 1,
                    ) + match change {
                        Change::Gain => s.best_seg[n - 1]->0 - s.current_lap_times[n - 1]->0,
                        Change::Loss => s.current_lap_times[n - 1]->0 - s.best_seg[n - 1]->0,
                    });
                },
                None => {
                    assert(total(s, change, n - 1, n - 1) == 0);
                    assert(total(s, change, n - 1, n as int) == total(s, change, n - 1, n - 1)
                        + match change {
                        Change::Gain => s.best_seg[n - 1]->0 - s.current_lap_times[n - 1]->0,
                        Change::Loss => s.current_lap_times[n - 1]->0 - s.best_seg[n - 1]->0,
                    });
                },
            }
        }
        assert forall|i: int| 0 <= i < n && #[trigger] changed(s, change, i) implies (
        open matches Some(r) && lies_in(r, i)) || exists|k: int|
            0 <= k < done.len() && lies_in(#[trigger] done[k], i) by {
            if i < below {
                if !(left matches Some(r) && lies_in(r, i)) {
                    let k = choose|k: int| 0 <= k < rest.len() && lies_in(#[trigger] rest[k], i);
                    assert(done[k] == rest[k]);
                } else if here is None {
                    assert(lies_in(done[rest.len() as int], i));
                }
            }
        }
    }
}

/// The runs of a lap: each covers neighbouring segments that all changed that way, with
/// the time that these won or lost together. No segment next to it changed that way. The
/// runs stand in the order of the lap and apart, and every segment that changed that way
/// lies in one of them.
pub proof fn runs_are_whole_and_all_there(s: SectorView, change: Change)
    requires
        s.best_seg.len() == s.current_lap_times.len(),
        s.current_lap_times.len() <= usize::MAX,
    ensures
        forall|k: int|
            0 <= k < streaks(s, change).len() ==> covers(
                s,
                change,
                #[trigger] streaks(s, change)[k],
            ) && is_maximal(s, change, streaks(s, change)[k]),
        are_apart(streaks(s, change)),
        forall|i: int|
            0 <= i < s.current_lap_times.len() && #[trigger] changed(s, change, i) ==> exists|
                k: int,
            | 0 <= k < streaks(s, change).len() && lies_in(#[trigger] streaks(s, change)[k], i),
{
    let n = s.current_lap_times.len();
    lemma_runs(s, change, n);
    let (done, open) = runs(s, change, n);
    let all = streaks(s, change);
    assert forall|i: int| 0 <= i < n && #[trigger] changed(s, change, i) implies exists|k: int|
        0 <= k < all.len() && lies_in(#[trigger] all[k], i) by {
        if open matches Some(r) && lies_in(r, i) {
            assert(lies_in(all[done.len() as int], i));
        } else {
            let k = choose|k: int| 0 <= k < done.len() && lies_in(#[trigger] done[k], i);
            assert(all[k] == done[k]);
        }
    }
}

/// Whether an event tells of a run: the first and the last of its segments, where the
/// one begins and the other ends in millionths of the lap, and the time won or lost.
pub open spec fn tells_of(
    e: RaceEvent,
    r: Streak,
    lap: u8,
    session_time: Micro,
    change: Change,
    anchor_count: usize,
) -> bool {
    match e {
        RaceEvent::MicroSectorGain {
            lap: l,
            session_time: t,
            bucket_from,
            bucket_to,
            lap_dist_pct_from,
            lap_dist_pct_to,
            cumulative_delta_s,
            technique_hint,
        } => {
            &&& change == Change::Gain
            &&& l == lap && t == session_time
            &&& bucket_from == r.from && bucket_to == r.to
            &&& lap_dist_pct_from * anchor_count <= r.from * 1_000_000 < (lap_dist_pct_from + 1)
                * anchor_count
            &&& lap_dist_pct_to * anchor_count <= (r.to + 1) * 1_000_000 < (lap_dist_pct_to + 1)
                * anchor_count
            &&& cumulative_delta_s == r.delta
            &&& technique_hint == "carried more speed"
        },
        RaceEvent::MicroSectorLoss {
            lap: l,
            session_time: t,
            bucket_from,
            bucket_to,
            lap_dist_pct_from,
            lap_dist_pct_to,
            cumulative_delta_s,
        } => {
            &&& change == Change::Loss
            &&& l == lap && t == session_time
            &&& bucket_from == r.from && bucket_to == r.to
            &&& lap_dist_pct_from * anchor_count <= r.from * 1_000_000 < (lap_dist_pct_from + 1)
                * anchor_count
            &&& lap_dist_pct_to * anchor_count <= (r.to + 1) * 1_000_000 < (lap_dist_pct_to + 1)
                * anchor_count
            &&& cumulative_delta_s == r.delta
        },
        _ => false,
    }
}

/// The event of a run tells of it.
proof fn lemma_tells_of(
    lap: u8,
    session_time: Micro,
    change: Change,
    r: Streak,
    anchor_count: usize,
)
    requires
        r.from <= r.to < anchor_count <= 256,
    ensures
        tells_of(
            streak_event(lap, session_time, change, r, anchor_count),
            r,
            lap,
            session_time,
            change,
            anchor_count,
        ),
{
    let d = anchor_count as int;
    let x = r.from * 1_000_000;
    let y = (r.to + 1) * 1_000_000;
    assert((x / d) * d <= x < (x / d + 1) * d && 0 <= x / d <= x) by (nonlinear_arith)
        requires
            d > 0,
            x >= 0,
    ;
    assert((y / d) * d <= y < (y / d + 1) * d && 0 <= y / d <= y) by (nonlinear_arith)
        requires
            d > 0,
            y >= 0,
    ;
}

/// How many of the runs are reported: all that win time, and those that lose two
/// hundredths of a second or more.
pub open spec fn reported(rs: Seq<Streak>, change: Change) -> Seq<Streak>
    decreases rs.len(),
{
    if rs.len() == 0 {
        rs
    } else {
        let rest = reported(rs.drop_last(), change);
        if change == Change::Gain || rs.last().delta >= 20_000 {
            rest.push(rs.last())
        } else {
            rest
        }
    }
}

/// Each run that is reported has one event, in the order of the lap.
proof fn lemma_reported(
    lap: u8,
    session_time: Micro,
    change: Change,
    rs: Seq<Streak>,
    anchor_count: usize,
)
    requires
        forall|k: int|
            0 <= k < rs.len() ==> (#[trigger] rs[k]).from <= rs[k].to < anchor_count,
        anchor_count <= 256,
    ensures
        ({
            let es = streak_events(lap, session_time, change, rs, anchor_count);
            let told = reported(rs, change);
            &&& es.len() == told.len()
            &&& forall|k: int|
                0 <= k < es.len() ==> tells_of(
                    #[trigger] es[k],
                    told[k],
                    lap,
                    session_time,
                    change,
                    anchor_count,
                )
        }),
    decreases rs.len(),
{
    if rs.len() > 0 {
        let front = rs.drop_last();
        assert forall|k: int| 0 <= k < front.len() implies (#[trigger] front[k]).from
            <= front[k].to < anchor_count by {
            assert(front[k] == rs[k]);
        }
        lemma_reported(lap, session_time, change, front, anchor_count);
        assert(rs[rs.len() - 1] == rs.last());
        lemma_tells_of(lap, session_time, change, rs.last(), anchor_count);
    }
}

/// A clean lap after another clean one tells of each run that won time, and then of each
/// that lost two hundredths of a second or more, once and in the order of the lap. Any
/// other lap tells of none.
pub proof fn a_clean_lap_tells_of_its_runs(
    s: SectorView,
    lap: u8,
    session_time: Micro,
    clean_lap: bool,
)
    requires
        s.best_seg.len() == s.current_lap_times.len(),
        s.current_lap_times.len() <= 256,
    ensures
        ({
            let es = lap_events(s, lap, session_time, clean_lap);
            let gains = reported(streaks(s, Change::Gain), Change::Gain);
            let losses = reported(streaks(s, Change::Loss), Change::Loss);
            let n = s.current_lap_times.len() as usize;
            if clean_lap && s.clean_laps_completed >= 1 {
                &&& es.len() == gains.len() + losses.len()
                &&& forall|k: int|
                    0 <= k < gains.len() ==> tells_of(
                        #[trigger] es[k],
                        gains[k],
                        lap,
                        session_time,
                        Change::Gain,
                        n,
                    )
                &&& forall|k: int|
                    0 <= k < losses.len() ==> tells_of(
                        es[gains.len() + k],
                        #[trigger] losses[k],
                        lap,
                        session_time,
                        Change::Loss,
                        n,
                    )
            } else {
                es.len() == 0
            }
        }),
{
    let n = s.current_lap_times.len() as usize;
    runs_are_whole_and_all_there(s, Change::Gain);
    runs_are_whole_and_all_there(s, Change::Loss);
    lemma_reported(lap, session_time, Change::Gain, streaks(s, Change::Gain), n);
    lemma_reported(lap, session_time, Change::Loss, streaks(s, Change::Loss), n);
    let a = streak_events(lap, session_time, Change::Gain, streaks(s, Change::Gain), n);
    let b = streak_events(lap, session_time, Change::Loss, streaks(s, Change::Loss), n);
    let losses = reported(streaks(s, Change::Loss), Change::Loss);
    assert forall|k: int| 0 <= k < losses.len() implies tells_of(
        (a + b)[a.len() + k],
        #[trigger] losses[k],
        lap,
        session_time,
        Change::Loss,
        n,
    ) by {
        assert((a + b)[a.len() + k] == b[k]);
    }
}

/// A segment takes the time from the anchor before to its own: where the second of two
/// crossings of a lap is at another anchor, the time between them is that of the second
/// anchor's segment, and no other segment changes.
pub proof fn a_segment_takes_the_time_between_two_anchors(
    s: SectorView,
    t1: Micro,
    b1: u8,
    t2: Micro,
    b2: u8,
)
    requires
        b1 != b2,
        b2 < s.current_lap_times.len(),
        0 <= t1 <= t2,
    ensures
        ({
            let before = crossed(s, t1, b1);
            let after = crossed(before, t2, b2);
            &&& after.current_lap_times[b2 as int] == Some((t2 - t1) as i64)
            &&& after.current_lap_times.len() == s.current_lap_times.len()
            &&& forall|i: int|
                0 <= i < s.current_lap_times.len() && i != b2 ==> #[trigger]
                    after.current_lap_times[i] == before.current_lap_times[i]
            &&& after.best_seg == s.best_seg
        }),
{
}

/// After a clean lap the best time of every segment is the least of the one before and
/// the one that was driven, and no segment of the next lap is driven yet.
pub proof fn a_clean_lap_leaves_the_least_times(s: SectorView, i: int)
    requires
        s.best_seg.len() == s.current_lap_times.len(),
        0 <= i < s.best_seg.len(),
    ensures
        ({
            let after = lap_ended(s, true);
            &&& after.best_seg[i] is Some <==> s.best_seg[i] is Some || s.current_lap_times[i]
                is Some
            &&& after.best_seg[i] is Some ==> (after.best_seg[i] == s.best_seg[i]
                || after.best_seg[i] == s.current_lap_times[i])
            &&& s.best_seg[i] is Some ==> after.best_seg[i]->0 <= s.best_seg[i]->0
            &&& s.current_lap_times[i] is Some ==> after.best_seg[i]->0
                <= s.current_lap_times[i]->0
            &&& after.current_lap_times[i] is None
            &&& s.clean_laps_completed < u32::MAX ==> after.clean_laps_completed
                == s.clean_laps_completed + 1
        }),
{
}

/// What is said of the segment that was completed last: its anchor where it has a time in
/// this lap, and that time against the best one where there is a best one.
pub proof fn the_last_segment_is_held_against_the_best(s: SectorView, b: u8)
    requires
        s.best_seg.len() == s.current_lap_times.len(),
        s.last_anchor_bucket == Some(b),
        b < s.current_lap_times.len(),
    ensures
        ({
            let time = s.current_lap_times[b as int];
            let best = s.best_seg[b as int];
            &&& time is None ==> last_segment(s).0 is None && last_segment(s).1 is None
            &&& time is Some ==> last_segment(s).0 == Some(b)
            &&& time is Some && best is None ==> last_segment(s).1 is None
            &&& time is Some && best is Some && 0 <= time->0 && 0 <= best->0
                ==> last_segment(s).1 is Some && best->0 + last_segment(s).1->0 == time->0
        }),
{
}

/// A crossing of the anchor that was crossed last, or of one beyond the lap's, times no
/// segment, nor does the first crossing of a lap; one that the clock puts before the last
/// takes no time.
pub proof fn a_crossing_that_times_nothing(s: SectorView, t1: Micro, b1: u8, t2: Micro, b2: u8)
    ensures
        ({
            let before = crossed(s, t1, b1);
            let after = crossed(before, t2, b2);
            &&& b1 == b2 ==> after.current_lap_times == before.current_lap_times
            &&& b2 >= s.current_lap_times.len() ==> after.current_lap_times
                == before.current_lap_times
            &&& s.last_anchor_time is None ==> before.current_lap_times == s.current_lap_times
            &&& b1 != b2 && b2 < s.current_lap_times.len() && t2 <= t1
                ==> after.current_lap_times[b2 as int] == Some(0i64)
        }),
{
}

} // verus!
