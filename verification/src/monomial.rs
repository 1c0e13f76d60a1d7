use vstd::prelude::*;

use crate::taylor::binom;

verus! {

// A monomial of degree `t` in the variables `0..n` is written as the
// nondecreasing sequence of its `t` variable indices. Monomials of one degree
// are listed in lexicographic order; `rank` is the position of a monomial in
// that list.

/// `tuple` is nondecreasing, with every entry in `lo..n`.
pub open spec fn valid_tuple(n: nat, tuple: Seq<nat>, lo: nat) -> bool {
    &&& forall|a: int| 0 <= a < tuple.len() ==> lo <= #[trigger] tuple[a] < n
    &&& forall|a: int, b: int| 0 <= a <= b < tuple.len() ==> tuple[a] <= tuple[b]
}

/// Number of nondecreasing `t`-tuples with entries in `lo..n`.
pub open spec fn run_len(n: nat, t: nat, lo: nat) -> nat {
    if t == 0 {
        1
    } else {
        binom((n - lo + t - 1) as nat, t)
    }
}

/// Number of nondecreasing `t`-tuples with entries in `lo..n` whose first
/// entry is below `i`.
pub open spec fn runs_from(n: nat, t: nat, lo: nat, i: nat) -> nat
    decreases i,
{
    if i <= lo || t == 0 {
        0
    } else {
        runs_from(n, t, lo, (i - 1) as nat) + run_len(n, (t - 1) as nat, (i - 1) as nat)
    }
}

/// Position of the nondecreasing tuple `tuple`, with entries from `lo` on,
/// among all such tuples of its length in lexicographic order.
pub open spec fn rank(n: nat, tuple: Seq<nat>, lo: nat) -> nat
    decreases tuple.len(),
{
    if tuple.len() == 0 {
        0
    } else {
        runs_from(n, tuple.len(), lo, tuple[0]) + rank(n, tuple.drop_first(), tuple[0])
    }
}

/// Tuples starting at `i` and those starting after it partition those
/// starting from `i` on.
pub proof fn lemma_run_split(n: nat, t: nat, i: nat)
    requires
        t >= 1,
        i < n,
    ensures
        run_len(n, t, i) == run_len(n, (t - 1) as nat, i) + run_len(n, t, i + 1),
{
    let m = (n - i + t - 1) as nat;
    assert(m >= 1);
    assert(binom(m, t) == binom((m - 1) as nat, (t - 1) as nat) + binom((m - 1) as nat, t));
    if t == 1 {
        assert(binom((m - 1) as nat, 0) == 1);
    }
}

/// Counting the tuples by their first entry.
pub proof fn lemma_runs_from_total(n: nat, t: nat, lo: nat, i: nat)
    requires
        t >= 1,
        lo <= i <= n,
    ensures
        runs_from(n, t, lo, i) + run_len(n, t, i) == run_len(n, t, lo),
    decreases i - lo,
{
    if i > lo {
        lemma_runs_from_total(n, t, lo, (i - 1) as nat);
        lemma_run_split(n, t, (i - 1) as nat);
    }
}

/// No tuple of a positive length has its entries in an empty range.
pub proof fn lemma_run_len_empty(n: nat, t: nat)
    requires
        t >= 1,
    ensures
        run_len(n, t, n) == 0,
{
    crate::taylor::lemma_binom_above((t - 1) as nat, t);
}

pub proof fn lemma_runs_from_monotone(n: nat, t: nat, lo: nat, i: nat, j: nat)
    requires
        i <= j,
    ensures
        runs_from(n, t, lo, i) <= runs_from(n, t, lo, j),
    decreases j - i,
{
    if i < j {
        lemma_runs_from_monotone(n, t, lo, i, (j - 1) as nat);
    }
}

/// Runs counted from `lo` split at `k`.
pub proof fn lemma_runs_from_shift(n: nat, t: nat, lo: nat, k: nat, i: nat)
    requires
        lo <= k <= i,
    ensures
        runs_from(n, t, lo, i) == runs_from(n, t, lo, k) + runs_from(n, t, k, i),
    decreases i - k,
{
    if i > k {
        lemma_runs_from_shift(n, t, lo, k, (i - 1) as nat);
    }
}

/// For one-entry tuples the run before `i` is `i - lo`.
pub proof fn lemma_runs_from_one(n: nat, lo: nat, i: nat)
    requires
        lo <= i,
    ensures
        runs_from(n, 1, lo, i) == i - lo,
    decreases i - lo,
{
    if i > lo {
        lemma_runs_from_one(n, lo, (i - 1) as nat);
    }
}

pub proof fn lemma_valid_tail(n: nat, tuple: Seq<nat>, lo: nat)
    requires
        tuple.len() >= 1,
        valid_tuple(n, tuple, lo),
    ensures
        valid_tuple(n, tuple.drop_first(), tuple[0]),
        lo <= tuple[0] < n,
{
    let tail = tuple.drop_first();
    assert forall|a: int| 0 <= a < tail.len() implies tuple[0] <= #[trigger] tail[a] < n by {
        assert(tail[a] == tuple[a + 1]);
        assert(tuple[0] <= tuple[a + 1]);
    }
    assert forall|a: int, b: int| 0 <= a <= b < tail.len() implies tail[a] <= tail[b] by {
        assert(tail[a] == tuple[a + 1]);
        assert(tail[b] == tuple[b + 1]);
    }
}

/// A valid tuple's rank lies below the number of such tuples.
pub proof fn lemma_rank_bound(n: nat, tuple: Seq<nat>, lo: nat)
    requires
        valid_tuple(n, tuple, lo),
        lo <= n,
    ensures
        rank(n, tuple, lo) < run_len(n, tuple.len(), lo),
    decreases tuple.len(),
{
    if tuple.len() == 0 {
    } else {
        let t = tuple.len();
        let i = tuple[0];
        lemma_valid_tail(n, tuple, lo);
        lemma_rank_bound(n, tuple.drop_first(), i);
        lemma_runs_from_total(n, t, lo, i + 1);
        assert(runs_from(n, t, lo, i + 1) == runs_from(n, t, lo, i) + run_len(
            n,
            (t - 1) as nat,
            i,
        ));
    }
}

/// Distinct valid tuples of one length have distinct ranks.
pub proof fn lemma_rank_injective(n: nat, t1: Seq<nat>, t2: Seq<nat>, lo: nat)
    requires
        valid_tuple(n, t1, lo),
        valid_tuple(n, t2, lo),
        t1.len() == t2.len(),
        lo <= n,
        rank(n, t1, lo) == rank(n, t2, lo),
    ensures
        t1 == t2,
    decreases t1.len(),
{
    if t1.len() == 0 {
        assert(t1 =~= t2);
    } else {
        let t = t1.len();
        let i1 = t1[0];
        let i2 = t2[0];
        lemma_valid_tail(n, t1, lo);
        lemma_valid_tail(n, t2, lo);
        lemma_rank_bound(n, t1.drop_first(), i1);
        lemma_rank_bound(n, t2.drop_first(), i2);
        if i1 < i2 {
            lemma_runs_from_monotone(n, t, lo, i1 + 1, i2);
            assert(false);
        } else if i2 < i1 {
            lemma_runs_from_monotone(n, t, lo, i2 + 1, i1);
            assert(false);
        }
        lemma_rank_injective(n, t1.drop_first(), t2.drop_first(), i1);
        assert(t1 =~= seq![i1] + t1.drop_first());
        assert(t2 =~= seq![i2] + t2.drop_first());
    }
}

} // verus!
