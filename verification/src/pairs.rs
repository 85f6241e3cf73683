//! Pair generation and round-robin dispatch.
//!
//! The generator enumerates every unordered pair of distinct record indices
//! exactly once, in lexicographic order, excluding self-pairs.  The
//! dispatcher assigns the k-th pair to worker `k mod w`, which keeps the
//! per-worker shares within one job of each other.

use vstd::prelude::*;
use vstd::arithmetic::div_mod::lemma_fundamental_div_mod;

verus! {

/// Number of unordered pairs of `n` distinct items.
pub open spec fn pair_count_spec(n: int) -> int {
    n * (n - 1) / 2
}

/// Strict lexicographic order on index pairs.
pub open spec fn pair_lt(a: (usize, usize), b: (usize, usize)) -> bool {
    a.0 < b.0 || (a.0 == b.0 && a.1 < b.1)
}

/// Whether the sequence holds the pair `(a, b)` somewhere.
pub open spec fn contains_pair(s: Seq<(usize, usize)>, a: usize, b: usize) -> bool {
    exists|k: int| 0 <= k < s.len() && (#[trigger] s[k]).0 == a && s[k].1 == b
}

proof fn lemma_contains_push(s: Seq<(usize, usize)>, e: (usize, usize), a: usize, b: usize)
    requires
        contains_pair(s, a, b),
    ensures
        contains_pair(s.push(e), a, b),
{
    let k = choose|k: int| 0 <= k < s.len() && (#[trigger] s[k]).0 == a && s[k].1 == b;
    assert(s.push(e)[k] == s[k]);
}

/// All unordered pairs `(i, j)` with `i < j < n`, in lexicographic order.
///
/// Exactly `n * (n - 1) / 2` pairs come out; no pair is skipped or
/// duplicated, and no self-pair appears.
pub fn all_pairs(n: usize) -> (pairs: Vec<(usize, usize)>)
    ensures
        2 * pairs@.len() == n as int * (n as int - 1),
        pairs@.len() == pair_count_spec(n as int),
        forall|k: int|
            0 <= k < pairs@.len() ==> (#[trigger] pairs@[k]).0 < pairs@[k].1 && pairs@[k].1 < n,
        forall|k1: int, k2: int|
            0 <= k1 < k2 < pairs@.len() ==> pair_lt(#[trigger] pairs@[k1], #[trigger] pairs@[k2]),
        forall|a: usize, b: usize| a < b && b < n ==> #[trigger] contains_pair(pairs@, a, b),
{
    let mut pairs: Vec<(usize, usize)> = Vec::new();
    let mut i: usize = 0;
    while i < n
        invariant
            i <= n,
            2 * pairs@.len() == i as int * (2 * n as int - i as int - 1),
            forall|k: int|
                0 <= k < pairs@.len() ==> (#[trigger] pairs@[k]).0 < pairs@[k].1 && pairs@[k].1
                    < n,
            forall|k: int| 0 <= k < pairs@.len() ==> (#[trigger] pairs@[k]).0 < i,
            forall|k1: int, k2: int|
                0 <= k1 < k2 < pairs@.len() ==> pair_lt(
                    #[trigger] pairs@[k1],
                    #[trigger] pairs@[k2],
                ),
            forall|a: usize, b: usize|
                a < i && a < b && b < n ==> #[trigger] contains_pair(pairs@, a, b),
        decreases n - i,
    {
        let mut j: usize = i + 1;
        while j < n
            invariant
                i < n,
                i + 1 <= j <= n,
                2 * pairs@.len() == i as int * (2 * n as int - i as int - 1) + 2 * (j as int - i
                    as int - 1),
                forall|k: int|
                    0 <= k < pairs@.len() ==> (#[trigger] pairs@[k]).0 < pairs@[k].1
                        && pairs@[k].1 < n,
                forall|k: int|
                    0 <= k < pairs@.len() ==> pair_lt(#[trigger] pairs@[k], (i, j)),
                forall|k1: int, k2: int|
                    0 <= k1 < k2 < pairs@.len() ==> pair_lt(
                        #[trigger] pairs@[k1],
                        #[trigger] pairs@[k2],
                    ),
                forall|a: usize, b: usize|
                    a < i && a < b && b < n ==> #[trigger] contains_pair(pairs@, a, b),
                forall|b: usize| i < b && b < j ==> #[trigger] contains_pair(pairs@, i, b),
            decreases n - j,
        {
            let ghost prev = pairs@;
            pairs.push((i, j));
            proof {
                assert(pairs@ == prev.push((i, j)));
                assert(pairs@[prev.len() as int].0 == i && pairs@[prev.len() as int].1 == j);
                assert(contains_pair(pairs@, i, j));
                assert forall|a: usize, b: usize| a < i && a < b && b < n implies #[trigger]
                    contains_pair(pairs@, a, b) by {
                    lemma_contains_push(prev, (i, j), a, b);
                }
                assert forall|b: usize| i < b && b < j + 1 implies #[trigger] contains_pair(
                    pairs@,
                    i,
                    b,
                ) by {
                    if b < j {
                        lemma_contains_push(prev, (i, j), i, b);
                    }
                }
            }
            j += 1;
        }
        proof {
            assert(i as int * (2 * n as int - i as int - 1) + 2 * (n as int - i as int - 1) == (i
                as int + 1) * (2 * n as int - (i as int + 1) - 1)) by (nonlinear_arith);
        }
        i += 1;
    }
    proof {
        assert(2 * pairs@.len() == n as int * (n as int - 1));
        assert(pairs@.len() == n as int * (n as int - 1) / 2) by (nonlinear_arith)
            requires
                2 * pairs@.len() == n as int * (n as int - 1),
        ;
    }
    pairs
}

/// The worker that the k-th generated pair is assigned to.
pub fn worker_of(k: usize, num_workers: usize) -> (t: usize)
    requires
        num_workers >= 1,
    ensures
        t == k as int % num_workers as int,
        t < num_workers,
{
    k % num_workers
}

/// How many of `p` round-robin jobs worker `t` receives.
pub open spec fn rr_share(p: int, w: int, t: int) -> int {
    p / w + if t < p % w {
        1int
    } else {
        0int
    }
}

/// Round-robin shares differ by at most one job: every worker receives
/// either the floor or the ceiling of `p / w`.
pub proof fn lemma_round_robin_balanced(p: int, w: int, t: int)
    requires
        w >= 1,
        0 <= t < w,
        p >= 0,
    ensures
        rr_share(p, w, t) == p / w || rr_share(p, w, t) == p / w + 1,
        p % w == 0 ==> rr_share(p, w, t) == p / w,
{
}

/// A count `cnt` of lane slots with `cnt * w + t >= p` whose last slot index
/// (if any) is below `p` is exactly the round-robin share.
proof fn lemma_share_char(p: int, w: int, t: int, cnt: int)
    requires
        w >= 1,
        0 <= t < w,
        0 <= p,
        0 <= cnt,
        cnt * w + t >= p,
        cnt == 0 || (cnt - 1) * w + t < p,
    ensures
        cnt == rr_share(p, w, t),
{
    lemma_fundamental_div_mod(p, w);
    let d = p / w;
    let r = p % w;
    if t < r {
        assert(cnt == d + 1) by (nonlinear_arith)
            requires
                w >= 1,
                0 <= t < w,
                t < r,
                0 <= cnt,
                p == w * d + r,
                0 <= r < w,
                d >= 0,
                cnt * w + t >= p,
                cnt == 0 || (cnt - 1) * w + t < p,
        ;
    } else {
        assert(cnt == d) by (nonlinear_arith)
            requires
                w >= 1,
                0 <= t < w,
                t >= r,
                0 <= cnt,
                p == w * d + r,
                0 <= r < w,
                d >= 0,
                cnt * w + t >= p,
                cnt == 0 || (cnt - 1) * w + t < p,
        ;
    }
}

/// Split the pair list into per-worker job queues, assigning the k-th pair
/// to worker `k mod w`.  Worker `t` receives its jobs in their generated
/// order, its share is the floor or ceiling of `p / w`, and no job is lost
/// or duplicated.
pub fn split_round_robin(pairs: &Vec<(usize, usize)>, w: usize) -> (qs: Vec<
    Vec<(usize, usize)>,
>)
    requires
        w >= 1,
        pairs@.len() + w as int <= usize::MAX as int,
    ensures
        qs@.len() == w as int,
        forall|t: int|
            0 <= t < w as int ==> (#[trigger] qs@[t])@.len() == rr_share(
                pairs@.len() as int,
                w as int,
                t,
            ),
        forall|t: int, q: int|
            0 <= t < w as int && 0 <= q < qs@[t]@.len() ==> #[trigger] qs@[t]@[q] == pairs@[q * (w
                as int) + t],
        forall|k: int|
            0 <= k < pairs@.len() ==> qs@[k % w as int]@[k / w as int] == #[trigger] pairs@[k],
{
    let p = pairs.len();
    let mut qs: Vec<Vec<(usize, usize)>> = Vec::new();
    let mut t: usize = 0;
    while t < w
        invariant
            w >= 1,
            p == pairs@.len(),
            p + w <= usize::MAX,
            t <= w,
            qs@.len() == t as int,
            forall|u: int|
                0 <= u < t as int ==> (#[trigger] qs@[u])@.len() == rr_share(
                    p as int,
                    w as int,
                    u,
                ),
            forall|u: int, q: int|
                0 <= u < t as int && 0 <= q < qs@[u]@.len() ==> #[trigger] qs@[u]@[q] == pairs@[q
                    * (w as int) + u],
        decreases w - t,
    {
        let mut lane: Vec<(usize, usize)> = Vec::new();
        let mut k: usize = t;
        proof {
            assert(lane@.len() * (w as int) == 0) by (nonlinear_arith)
                requires
                    lane@.len() == 0,
            ;
        }
        while k < p
            invariant
                w >= 1,
                t < w,
                p == pairs@.len(),
                p + w <= usize::MAX,
                k <= p + w,
                k as int == lane@.len() * (w as int) + (t as int),
                lane@.len() >= 1 ==> ((lane@.len() - 1) * (w as int) + (t as int)) < p as int,
                forall|q: int|
                    0 <= q < lane@.len() ==> #[trigger] lane@[q] == pairs@[q * (w as int) + t
                        as int],
            decreases p + w - k,
        {
            let ghost prevlen = lane@.len();
            let e = pairs[k];
            lane.push(e);
            proof {
                assert(lane@.len() == prevlen + 1);
                assert((prevlen + 1) * (w as int) == prevlen * (w as int) + (w as int))
                    by (nonlinear_arith);
                assert(lane@[prevlen as int] == pairs@[prevlen * (w as int) + (t as int)]);
            }
            k += w;
        }
        proof {
            lemma_share_char(p as int, w as int, t as int, lane@.len() as int);
        }
        qs.push(lane);
        t += 1;
    }
    proof {
        assert forall|k: int| 0 <= k < pairs@.len() implies qs@[k % w as int]@[k / w as int]
            == #[trigger] pairs@[k] by {
            lemma_fundamental_div_mod(k, w as int);
            let d = k / w as int;
            let r = k % w as int;
            assert(0 <= r < w as int);
            assert(d >= 0) by (nonlinear_arith)
                requires
                    k == (w as int) * d + r,
                    0 <= r < w as int,
                    w >= 1,
                    k >= 0,
            ;
            let cnt = rr_share(p as int, w as int, r);
            assert(cnt * (w as int) + r >= p as int && (cnt == 0 || ((cnt - 1) * (w as int) + r) < p as int)) by {
                lemma_fundamental_div_mod(p as int, w as int);
                assert(cnt * (w as int) + r >= p as int) by (nonlinear_arith)
                    requires
                        cnt == (p as int) / (w as int) + if r < (p as int) % (w as int) {
                            1int
                        } else {
                            0int
                        },
                        p as int == (w as int) * ((p as int) / (w as int)) + (p as int) % (w as int),
                        0 <= (p as int) % (w as int) < (w as int),
                        0 <= r < w as int,
                        w >= 1,
                ;
                assert(cnt == 0 || ((cnt - 1) * (w as int) + r) < p as int) by (nonlinear_arith)
                    requires
                        cnt == (p as int) / (w as int) + if r < (p as int) % (w as int) {
                            1int
                        } else {
                            0int
                        },
                        p as int == (w as int) * ((p as int) / (w as int)) + (p as int) % (w as int),
                        0 <= (p as int) % (w as int) < (w as int),
                        0 <= r < w as int,
                        w >= 1,
                        (p as int) / (w as int) >= 0,
                ;
            }
            assert(d < cnt) by (nonlinear_arith)
                requires
                    k == (w as int) * d + r,
                    k < p as int,
                    cnt * (w as int) + r >= p as int,
                    w >= 1,
                    d >= 0,
            ;
            assert(qs@[r]@[d] == pairs@[d * (w as int) + r]);
            assert(d * (w as int) + r == k) by (nonlinear_arith)
                requires
                    k == (w as int) * d + r,
            ;
        }
    }
    qs
}

} // verus!
