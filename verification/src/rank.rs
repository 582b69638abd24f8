//! Small numbered values kept in rising order.

use vstd::prelude::*;

use crate::fixed::Micro;

verus! {

/// A value under the number of the car or the anchor it belongs to.
pub type Numbered = (u8, Micro);

/// The values do not fall from one place to the next.
pub open spec fn rises(s: Seq<Numbered>) -> bool {
    forall|i: int, j: int| 0 <= i < j < s.len() ==> #[trigger] s[i].1 <= #[trigger] s[j].1
}

/// `s` with `x` put in behind every value that is not greater, seen from the end.
pub open spec fn ranked_insert(s: Seq<Numbered>, x: Numbered) -> Seq<Numbered>
    decreases s.len(),
{
    if s.len() == 0 || s.last().1 <= x.1 {
        s.push(x)
    } else {
        ranked_insert(s.drop_last(), x).push(s.last())
    }
}

/// Putting a value in keeps the order and adds that value alone.
pub proof fn ranked_insert_keeps_order(s: Seq<Numbered>, x: Numbered)
    requires
        rises(s),
    ensures
        rises(ranked_insert(s, x)),
        ranked_insert(s, x).to_multiset() == s.to_multiset().insert(x),
        ranked_insert(s, x).len() == s.len() + 1,
    decreases s.len(),
{
    broadcast use vstd::seq_lib::group_to_multiset_ensures;

    if s.len() == 0 || s.last().1 <= x.1 {
        assert forall|i: int| 0 <= i < s.len() implies #[trigger] s[i].1 <= x.1 by {
            if i < s.len() - 1 {
                assert(s[i].1 <= s[s.len() - 1].1);
            }
        }
        assert(s.push(x).to_multiset() =~= s.to_multiset().insert(x));
    } else {
        let front = s.drop_last();
        ranked_insert_keeps_order(front, x);
        let r = ranked_insert(front, x);
        assert(s =~= front.push(s.last()));
        assert(s.to_multiset() =~= front.to_multiset().insert(s.last()));
        assert(r.push(s.last()).to_multiset() =~= s.to_multiset().insert(x));
        assert forall|i: int| 0 <= i < r.len() implies #[trigger] r[i].1 <= s.last().1 by {
            assert(r.to_multiset().contains(r[i])) by {
                assert(r.contains(r[i]));
            }
            if r[i] != x {
                assert(front.to_multiset().contains(r[i]));
                assert(front.contains(r[i]));
                let k = choose|k: int| 0 <= k < front.len() && front[k] == r[i];
                assert(s[k].1 <= s[s.len() - 1].1);
            }
        }
    }
}

/// Puts `x` in behind every value that is not greater.
pub fn insert_in_rank(v: &mut Vec<Numbered>, x: Numbered)
    ensures
        final(v)@ == ranked_insert(old(v)@, x),
{
    let mut p: usize = v.len();
    let ghost s = v@;
    proof {
        assert(s.take(p as int) =~= s);
        assert(ranked_insert(s, x) + s.skip(p as int) =~= ranked_insert(s, x));
    }
    while p > 0 && v[p - 1].1 > x.1
        invariant
            v@ == s,
            p <= s.len(),
            ranked_insert(s, x) == ranked_insert(s.take(p as int), x) + s.skip(p as int),
        decreases p,
    {
        proof {
            let front = s.take(p as int);
            assert(front.drop_last() =~= s.take(p - 1));
            assert(ranked_insert(front, x) == ranked_insert(s.take(p - 1), x).push(s[p - 1]));
            assert(ranked_insert(s.take(p - 1), x).push(s[p - 1]) + s.skip(p as int)
                =~= ranked_insert(s.take(p - 1), x) + s.skip(p - 1));
        }
        p = p - 1;
    }
    v.insert(p, x);
    proof {
        assert(ranked_insert(s.take(p as int), x) == s.take(p as int).push(x));
        assert(s.insert(p as int, x) =~= s.take(p as int).push(x) + s.skip(p as int));
    }
}

/// The middle of a rising row: the middle value, or half way between the two.
pub open spec fn middle(s: Seq<Numbered>) -> Micro {
    let n = s.len() as int;
    if n % 2 == 1 {
        s[n / 2].1
    } else {
        ((s[n / 2 - 1].1 + s[n / 2].1) / 2) as i64
    }
}

/// The middle of a rising row.
pub fn median(v: &Vec<Numbered>) -> (r: Micro)
    requires
        v@.len() > 0,
    ensures
        r == middle(v@),
{
    let n: usize = v.len();
    if n % 2 == 1 {
        v[n / 2].1
    } else {
        let sum: i128 = v[n / 2 - 1].1 as i128 + v[n / 2].1 as i128;
        crate::fixed::quotient(sum, 2) as i64
    }
}

/// How many of the values are `m` or below.
pub open spec fn at_most(s: Seq<Numbered>, m: int) -> nat
    decreases s.len(),
{
    if s.len() == 0 {
        0
    } else {
        at_most(s.drop_last(), m) + if s.last().1 <= m {
            1nat
        } else {
            0nat
        }
    }
}

/// How many of the values are `m` or above.
pub open spec fn at_least(s: Seq<Numbered>, m: int) -> nat
    decreases s.len(),
{
    if s.len() == 0 {
        0
    } else {
        at_least(s.drop_last(), m) + if s.last().1 >= m {
            1nat
        } else {
            0nat
        }
    }
}

/// Whether `m` lies half way, rounded down, between the places `i` and `j`, which are
/// one place or two neighbours and have as many values before them as behind them.
pub open spec fn halfway(s: Seq<Numbered>, m: Micro, i: int, j: int) -> bool {
    &&& 0 <= i <= j < s.len()
    &&& i == s.len() - 1 - j
    &&& j <= i + 1
    &&& 2 * m <= s[i].1 + s[j].1 < 2 * m + 2
}

/// Whether `m` is the middle of a row.
pub open spec fn is_middle(s: Seq<Numbered>, m: Micro) -> bool {
    exists|i: int, j: int| #[trigger] halfway(s, m, i, j)
}

/// The values up to a place that is `m` or below are all counted as such.
proof fn lemma_at_most_up_to(s: Seq<Numbered>, m: int, k: int)
    requires
        rises(s),
        0 <= k < s.len(),
        s[k].1 <= m,
    ensures
        at_most(s, m) >= k + 1,
    decreases s.len(),
{
    let front = s.drop_last();
    let n = s.len() - 1;
    assert(rises(front));
    if k < n {
        assert(front[k] == s[k]);
        lemma_at_most_up_to(front, m, k);
    } else if k > 0 {
        assert(s[k - 1].1 <= s[k].1);
        assert(front[k - 1] == s[k - 1]);
        lemma_at_most_up_to(front, m, k - 1);
    }
}

/// The values from a place that is `m` or above are all counted as such.
proof fn lemma_at_least_from(s: Seq<Numbered>, m: int, k: int)
    requires
        rises(s),
        0 <= k < s.len(),
        s[k].1 >= m,
    ensures
        at_least(s, m) >= s.len() - k,
    decreases s.len(),
{
    let front = s.drop_last();
    let n = s.len() - 1;
    assert(rises(front));
    if k < n {
        assert(s[k].1 <= s[n].1);
        assert(front[k] == s[k]);
        lemma_at_least_from(front, m, k);
    }
}

/// The median of a rising row has half of the values at or below it and half at or
/// above it. It is the value that has as many before it as behind it, or the mean of the
/// two neighbours that have, rounded down.
pub proof fn the_median_lies_in_the_middle(s: Seq<Numbered>)
    requires
        rises(s),
        s.len() > 0,
    ensures
        is_middle(s, middle(s)),
        2 * at_most(s, middle(s) as int) >= s.len(),
        2 * at_least(s, middle(s) as int) >= s.len(),
        s.len() % 2 == 1 ==> exists|k: int|
            0 <= k < s.len() && k == s.len() - 1 - k && (#[trigger] s[k]).1 == middle(s),
{
    let n = s.len() as int;
    let m = middle(s);
    let j = n / 2;
    let i = n - 1 - j;
    if i < j {
        assert(s[i].1 <= s[j].1);
    }
    assert(halfway(s, m, i, j));
    lemma_at_most_up_to(s, m as int, i);
    lemma_at_least_from(s, m as int, j);
}

/// A value goes in behind all that are not greater and before all that are, so that of
/// equal values the one that was put in first stays first. The others keep their order.
pub proof fn equal_values_keep_their_order(s: Seq<Numbered>, x: Numbered) -> (p: int)
    requires
        rises(s),
    ensures
        0 <= p <= s.len(),
        ranked_insert(s, x) == s.insert(p, x),
        forall|i: int| 0 <= i < p ==> (#[trigger] s[i]).1 <= x.1,
        forall|i: int| p <= i < s.len() ==> (#[trigger] s[i]).1 > x.1,
    decreases s.len(),
{
    let n = s.len() as int;
    if n == 0 || s.last().1 <= x.1 {
        assert forall|i: int| 0 <= i < n implies (#[trigger] s[i]).1 <= x.1 by {
            if i < n - 1 {
                assert(s[i].1 <= s[n - 1].1);
            }
        }
        assert(s.insert(n, x) =~= s.push(x));
        n
    } else {
        let front = s.drop_last();
        assert(rises(front));
        let p = equal_values_keep_their_order(front, x);
        assert(s.insert(p, x) =~= front.insert(p, x).push(s.last()));
        assert forall|i: int| 0 <= i < p implies (#[trigger] s[i]).1 <= x.1 by {
            assert(front[i] == s[i]);
        }
        assert forall|i: int| p <= i < n implies (#[trigger] s[i]).1 > x.1 by {
            if i < n - 1 {
                assert(front[i] == s[i]);
            }
        }
        p
    }
}

} // verus!
