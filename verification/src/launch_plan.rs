use vstd::prelude::*;

use crate::monomial::{
    lemma_rank_bound, lemma_runs_from_one, lemma_runs_from_total, lemma_run_len_empty, rank,
    run_len, runs_from, valid_tuple,
};
use crate::dependency::Dependency;
use crate::error::XcError;
use crate::functional::{spec_dependencies, spec_potential_len, spec_validate_eval, Functional, MAX_CONTRACTED_ORDER, MAX_PARTIAL_ORDER};
use crate::taylor::{binom, lemma_small_taylorlen, spec_taylorlen};
use crate::vars::{spec_input_len, Mode, Vars};

verus! {

// A launch plan lists the kernel launches of one evaluation for one
// functional. Each launch evaluates the functional on Taylor-expanded input:
// the flat input block holds `inlen` expansions of `2^order` coefficients
// each, the coefficient `c` of variable `l` at position `l * 2^order + c`.
// The block starts zeroed; `copies` fill it from the caller's input,
// `seeds` set coefficients to one. After the launch, each of `reads` adds
// (or subtracts) the weighted kernel coefficient `coeff` to the output slot
// `to`.

/// Fill `flat[to]` with `input[from]`.
#[derive(Clone, Copy, Debug, PartialEq, Eq, Structural)]
pub struct CopyIn {
    pub to: usize,
    pub from: usize,
}

/// Accumulate `weight * kernel_out[coeff]` into `output[to]`, or subtract it.
#[derive(Clone, Copy, Debug, PartialEq, Eq, Structural)]
pub struct ReadOut {
    pub to: usize,
    pub coeff: usize,
    pub subtract: bool,
}

/// One kernel launch at Taylor order `order`.
#[derive(Clone, Debug)]
pub struct Launch {
    pub order: u32,
    pub copies: Vec<CopyIn>,
    pub seeds: Vec<usize>,
    pub reads: Vec<ReadOut>,
}

/// Every variable's constant coefficient taken from the input.
pub open spec fn constant_copies(n: nat, size: nat) -> Seq<CopyIn> {
    Seq::new(n, |l: int| CopyIn { to: (l * size) as usize, from: l as usize })
}

/// Seeds of a derivative along the variables of `tuple`: the `v`-th entry
/// seeds the `v`-th Taylor direction of its variable.
pub open spec fn tuple_seeds(tuple: Seq<nat>, size: nat) -> Seq<usize> {
    Seq::new(
        tuple.len(),
        |v: int| (tuple[v] * size + vstd::arithmetic::power2::pow2(v as nat)) as usize,
    )
}

pub open spec fn add_read(to: nat, coeff: nat) -> ReadOut {
    ReadOut { to: to as usize, coeff: coeff as usize, subtract: false }
}

/// The launch `l` at `order` takes every constant coefficient from the input
/// and seeds the directions of `tuple`, then makes `reads`.
pub open spec fn seeded_launch(
    l: Launch,
    n: nat,
    order: nat,
    tuple: Seq<nat>,
    reads: Seq<ReadOut>,
) -> bool {
    let size = vstd::arithmetic::power2::pow2(order);
    &&& l.order == order
    &&& l.copies@ == constant_copies(n, size)
    &&& l.seeds@ == tuple_seeds(tuple, size)
    &&& l.reads@ == reads
}

/// Reads of the launch of degree `t` for the monomial `tuple`: its mixed
/// derivative goes to the slot of the monomial in the Taylor layout. A
/// second-degree launch whose last variable is the last one also yields the
/// first derivative along its first variable, and the launch of the last
/// monomial also yields the energy.
pub open spec fn tier_reads(n: nat, t: nat, tuple: Seq<nat>) -> Seq<ReadOut> {
    let main = seq![
        add_read(
            spec_taylorlen(n, (t - 1) as nat) + rank(n, tuple, 0),
            (vstd::arithmetic::power2::pow2(t) - 1) as nat,
        ),
    ];
    if t == 2 {
        let first = if tuple[1] == n - 1 {
            seq![add_read(tuple[0] + 1, 1)]
        } else {
            Seq::<ReadOut>::empty()
        };
        let energy = if tuple[0] == n - 1 {
            seq![add_read(0, 0)]
        } else {
            Seq::<ReadOut>::empty()
        };
        main + first + energy
    } else {
        main
    }
}

/// The variables the launch `l` differentiates along, read back from its
/// seeds.
pub open spec fn launch_tuple(l: Launch) -> Seq<nat> {
    Seq::new(
        l.seeds@.len(),
        |v: int|
            ((l.seeds@[v] - vstd::arithmetic::power2::pow2(v as nat)) / (
            vstd::arithmetic::power2::pow2(l.order as nat) as int)) as nat,
    )
}

/// `l` is the launch of degree `t` for the monomial of rank `idx`.
pub open spec fn tier_entry(n: nat, t: nat, idx: int, l: Launch) -> bool {
    let tuple = launch_tuple(l);
    &&& tuple.len() == t
    &&& valid_tuple(n, tuple, 0)
    &&& rank(n, tuple, 0) == idx
    &&& seeded_launch(l, n, t, tuple, tier_reads(n, t, tuple))
}

/// Each launch of `plan[start..end]` is one of degree `t`, placed at the
/// rank of its monomial.
pub open spec fn tier_prefix(n: nat, t: nat, plan: Seq<Launch>, start: int, end: int) -> bool {
    forall|m: int| start <= m < end ==> #[trigger] tier_entry(n, t, m - start, plan[m])
}

/// The launches `plan[start..start + count]` are those of degree `t`, in the
/// order of the ranks of their monomials.
pub open spec fn tier_block(n: nat, t: nat, plan: Seq<Launch>, start: int) -> bool {
    &&& start + run_len(n, t, 0) <= plan.len()
    &&& tier_prefix(n, t, plan, start, start + run_len(n, t, 0))
}

/// Seeds laid out for `tuple` read back to `tuple`.
proof fn lemma_launch_tuple(l: Launch, tuple: Seq<nat>, n: nat)
    requires
        l.order <= 6,
        tuple.len() <= l.order,
        forall|v: int| 0 <= v < tuple.len() ==> #[trigger] tuple[v] < n,
        n <= 20,
        l.seeds@ == tuple_seeds(tuple, vstd::arithmetic::power2::pow2(l.order as nat)),
    ensures
        launch_tuple(l) == tuple,
{
    let size = vstd::arithmetic::power2::pow2(l.order as nat);
    vstd::arithmetic::power2::lemma2_to64();
    assert(size <= 64);
    assert forall|v: int| 0 <= v < tuple.len() implies #[trigger] launch_tuple(l)[v] == tuple[v] by {
        let p = vstd::arithmetic::power2::pow2(v as nat);
        vstd::arithmetic::power2::lemma_pow2_pos(v as nat);
        vstd::arithmetic::power2::lemma_pow2_strictly_increases(v as nat, l.order as nat);
        assert(tuple[v] * size <= 20 * 64) by (nonlinear_arith)
            requires
                tuple[v] < n <= 20,
                size <= 64,
        ;
        assert(l.seeds@[v] == tuple[v] * size + p);
        vstd::arithmetic::div_mod::lemma_div_multiples_vanish(tuple[v] as int, size as int);
        assert(tuple[v] * size == size * tuple[v]) by (nonlinear_arith);
    }
    assert(launch_tuple(l) =~= tuple);
}

fn constant_copies_vec(n: usize, size: usize) -> (r: Vec<CopyIn>)
    requires
        n * size <= usize::MAX,
    ensures
        r@ == constant_copies(n as nat, size as nat),
{
    let mut v: Vec<CopyIn> = Vec::new();
    let mut l: usize = 0;
    while l < n
        invariant
            l <= n,
            n * size <= usize::MAX,
            v@ == constant_copies(l as nat, size as nat),
        decreases n - l,
    {
        proof {
            vstd::arithmetic::mul::lemma_mul_inequality(l as int, n as int, size as int);
        }
        v.push(CopyIn { to: l * size, from: l });
        l = l + 1;
        proof {
            assert(v@ =~= constant_copies(l as nat, size as nat));
        }
    }
    v
}

/// Position in the layout of the derivatives of order two and up: the rank of
/// the monomial counted from the first second-degree slot.
proof fn lemma_tuple2_rank(n: nat, i: nat, j: nat)
    requires
        i <= j,
    ensures
        rank(n, seq![i, j], 0) == runs_from(n, 2, 0, i) + (j - i),
{
    let s = seq![i, j];
    assert(s.drop_first() =~= seq![j]);
    assert(seq![j].drop_first() =~= Seq::<nat>::empty());
    assert(rank(n, Seq::<nat>::empty(), j) == 0);
    assert(rank(n, seq![j], i) == runs_from(n, 1, i, j) + rank(n, Seq::<nat>::empty(), j));
    assert(rank(n, s, 0) == runs_from(n, 2, 0, i) + rank(n, seq![j], i));
    lemma_runs_from_one(n, i, j);
}

proof fn lemma_tuple3_rank(n: nat, i: nat, j: nat, k: nat)
    requires
        i <= j <= k,
    ensures
        rank(n, seq![i, j, k], 0) == runs_from(n, 3, 0, i) + runs_from(n, 2, i, j) + (k - j),
{
    assert(seq![i, j, k].drop_first() =~= seq![j, k]);
    assert(seq![j, k].drop_first() =~= seq![k]);
    assert(seq![k].drop_first() =~= Seq::<nat>::empty());
    assert(rank(n, Seq::<nat>::empty(), k) == 0);
    assert(rank(n, seq![k], j) == runs_from(n, 1, j, k) + rank(n, Seq::<nat>::empty(), k));
    assert(rank(n, seq![j, k], i) == runs_from(n, 2, i, j) + rank(n, seq![k], j));
    assert(rank(n, seq![i, j, k], 0) == runs_from(n, 3, 0, i) + rank(n, seq![j, k], i));
    lemma_runs_from_one(n, j, k);
}

proof fn lemma_tuple4_rank(n: nat, i: nat, j: nat, k: nat, l: nat)
    requires
        i <= j <= k <= l,
    ensures
        rank(n, seq![i, j, k, l], 0) == runs_from(n, 4, 0, i) + runs_from(n, 3, i, j) + runs_from(
            n,
            2,
            j,
            k,
        ) + (l - k),
{
    assert(seq![i, j, k, l].drop_first() =~= seq![j, k, l]);
    assert(seq![j, k, l].drop_first() =~= seq![k, l]);
    assert(seq![k, l].drop_first() =~= seq![l]);
    assert(seq![l].drop_first() =~= Seq::<nat>::empty());
    assert(rank(n, Seq::<nat>::empty(), l) == 0);
    assert(rank(n, seq![l], k) == runs_from(n, 1, k, l) + rank(n, Seq::<nat>::empty(), l));
    assert(rank(n, seq![k, l], j) == runs_from(n, 2, j, k) + rank(n, seq![l], k));
    assert(rank(n, seq![j, k, l], i) == runs_from(n, 3, i, j) + rank(n, seq![k, l], j));
    assert(rank(n, seq![i, j, k, l], 0) == runs_from(n, 4, 0, i) + rank(n, seq![j, k, l], i));
    lemma_runs_from_one(n, k, l);
}

/// Appends the second-degree launches: one per pair `i <= j`, seeding the
/// first direction on `i` and the second on `j`, in lexicographic order.
fn push_tier2(plan: &mut Vec<Launch>, n: usize)
    requires
        1 <= n <= 20,
    ensures
        final(plan)@.len() == old(plan)@.len() + run_len(n as nat, 2, 0),
        forall|m: int| 0 <= m < old(plan)@.len() ==> final(plan)@[m] == old(plan)@[m],
        tier_block(n as nat, 2, final(plan)@, old(plan)@.len() as int),
{
    let ghost nn = n as nat;
    let ghost start = plan@.len() as int;
    proof {
        lemma_small_taylorlen(nn, 2);
        lemma_small_taylorlen(nn, 1);
        lemma_runs_from_total(nn, 2, 0, nn);
        lemma_run_len_empty(nn, 2);
        assert(spec_taylorlen(nn, 2) == spec_taylorlen(nn, 1) + run_len(nn, 2, 0)) by {
            assert(binom(nn + 2, 2) == binom(nn + 1, 1) + binom(nn + 1, 2));
        }
    }
    let size: usize = 4;
    let mut slot: usize = n + 1;
    let mut i: usize = 0;
    while i < n
        invariant
            1 <= n <= 20,
            nn == n,
            size == 4,
            i <= n,
            0 <= start == old(plan)@.len(),
            plan@.len() == start + runs_from(nn, 2, 0, i as nat),
            slot == n + 1 + runs_from(nn, 2, 0, i as nat),
            runs_from(nn, 2, 0, nn) == run_len(nn, 2, 0),
            spec_taylorlen(nn, 2) <= 0x1000000,
            spec_taylorlen(nn, 2) == spec_taylorlen(nn, 1) + run_len(nn, 2, 0),
            forall|m: int| 0 <= m < start ==> plan@[m] == old(plan)@[m],
            tier_prefix(nn, 2, plan@, start, plan@.len() as int),
        decreases n - i,
    {
        let mut j: usize = i;
        while j < n
            invariant
                1 <= n <= 20,
                nn == n,
                size == 4,
                i < n,
                0 <= start == old(plan)@.len(),
                i <= j <= n,
                plan@.len() == start + runs_from(nn, 2, 0, i as nat) + (j - i),
                slot == n + 1 + runs_from(nn, 2, 0, i as nat) + (j - i),
                runs_from(nn, 2, 0, nn) == run_len(nn, 2, 0),
                spec_taylorlen(nn, 2) <= 0x1000000,
                spec_taylorlen(nn, 2) == spec_taylorlen(nn, 1) + run_len(nn, 2, 0),
                forall|m: int| 0 <= m < start ==> plan@[m] == old(plan)@[m],
                tier_prefix(nn, 2, plan@, start, plan@.len() as int),
            decreases n - j,
        {
            let ghost tuple = seq![i as nat, j as nat];
            proof {
                lemma_tuple2_rank(nn, i as nat, j as nat);
                crate::taylor::lemma_binom_one(nn + 1);
                assert(valid_tuple(nn, tuple, 0));
                lemma_rank_bound(nn, tuple, 0);
                vstd::arithmetic::power2::lemma2_to64();
            }
            let mut reads: Vec<ReadOut> = Vec::new();
            reads.push(ReadOut { to: slot, coeff: 3, subtract: false });
            if j == n - 1 {
                reads.push(ReadOut { to: i + 1, coeff: 1, subtract: false });
            }
            if i == n - 1 {
                reads.push(ReadOut { to: 0, coeff: 0, subtract: false });
            }
            let launch = Launch {
                order: 2,
                copies: constant_copies_vec(n, size),
                seeds: vec![i * size + 1, j * size + 2],
                reads,
            };
            proof {
                assert(launch.seeds@ =~= tuple_seeds(tuple, 4));
                lemma_launch_tuple(launch, tuple, nn);
                assert(launch.reads@ =~= tier_reads(nn, 2, tuple));
                assert(tier_entry(nn, 2, plan@.len() - start, launch));
            }
            let ghost before = plan@;
            plan.push(launch);
            proof {
                assert(plan@ == before.push(launch));
                assert forall|m: int| 0 <= m < before.len() implies plan@[m] == before[m] by {
                    assert(before.push(launch)[m] == before[m]);
                }
                assert forall|m: int| start <= m < plan@.len() implies #[trigger] tier_entry(
                    nn,
                    2,
                    m - start,
                    plan@[m],
                ) by {
                    if m < before.len() {
                        assert(before.push(launch)[m] == before[m]);
                    } else {
                        assert(plan@[m] == launch);
                    }
                }
            }
            slot = slot + 1;
            j = j + 1;
        }
        proof {
            lemma_runs_from_one(nn, i as nat, nn);
            assert(run_len(nn, 1, i as nat) == nn - i) by {
                crate::taylor::lemma_binom_one((nn - i) as nat);
            }
        }
        i = i + 1;
    }
}


/// The common facts of the push proofs: the launch just appended is an
/// entry of degree `t` at the next rank, and earlier entries are kept.
proof fn lemma_push_entry(
    n: nat,
    t: nat,
    before: Seq<Launch>,
    after: Seq<Launch>,
    launch: Launch,
    start: int,
)
    requires
        0 <= start <= before.len(),
        after == before.push(launch),
        tier_prefix(n, t, before, start, before.len() as int),
        tier_entry(n, t, before.len() - start, launch),
    ensures
        tier_prefix(n, t, after, start, after.len() as int),
        forall|m: int| 0 <= m < before.len() ==> after[m] == before[m],
{
    assert forall|m: int| 0 <= m < before.len() implies after[m] == before[m] by {
        assert(before.push(launch)[m] == before[m]);
    }
    assert forall|m: int| start <= m < after.len() implies #[trigger] tier_entry(
        n,
        t,
        m - start,
        after[m],
    ) by {
        if m < before.len() {
            assert(before.push(launch)[m] == before[m]);
        } else {
            assert(after[m] == launch);
        }
    }
}

/// Appends the third-degree launches: one per triple `i <= j <= k`, in
/// lexicographic order.
fn push_tier3(plan: &mut Vec<Launch>, n: usize)
    requires
        1 <= n <= 20,
    ensures
        final(plan)@.len() == old(plan)@.len() + run_len(n as nat, 3, 0),
        forall|m: int| 0 <= m < old(plan)@.len() ==> final(plan)@[m] == old(plan)@[m],
        tier_block(n as nat, 3, final(plan)@, old(plan)@.len() as int),
{
    let ghost nn = n as nat;
    let ghost start = plan@.len() as int;
    proof {
        lemma_small_taylorlen(nn, 3);
        lemma_small_taylorlen(nn, 2);
        lemma_runs_from_total(nn, 3, 0, nn);
        lemma_run_len_empty(nn, 3);
        assert(spec_taylorlen(nn, 3) == spec_taylorlen(nn, 2) + run_len(nn, 3, 0)) by {
            assert(binom(nn + 3, 3) == binom(nn + 2, 2) + binom(nn + 2, 3));
        }
    }
    let size: usize = 8;
    let base = crate::taylor::inlen_triangle_count(n, 2);
    let mut slot: usize = base;
    let mut i: usize = 0;
    while i < n
        invariant
            1 <= n <= 20,
            nn == n,
            size == 8,
            i <= n,
            0 <= start == old(plan)@.len(),
            base == spec_taylorlen(nn, 2),
            plan@.len() == start + runs_from(nn, 3, 0, i as nat),
            slot == base + runs_from(nn, 3, 0, i as nat),
            runs_from(nn, 3, 0, nn) == run_len(nn, 3, 0),
            spec_taylorlen(nn, 3) <= 0x1000000,
            spec_taylorlen(nn, 3) == spec_taylorlen(nn, 2) + run_len(nn, 3, 0),
            forall|m: int| 0 <= m < start ==> plan@[m] == old(plan)@[m],
            tier_prefix(nn, 3, plan@, start, plan@.len() as int),
        decreases n - i,
    {
        let mut j: usize = i;
        while j < n
            invariant
                1 <= n <= 20,
                nn == n,
                size == 8,
                i < n,
                i <= j <= n,
                0 <= start == old(plan)@.len(),
                base == spec_taylorlen(nn, 2),
                plan@.len() == start + runs_from(nn, 3, 0, i as nat) + runs_from(
                    nn,
                    2,
                    i as nat,
                    j as nat,
                ),
                slot == base + runs_from(nn, 3, 0, i as nat) + runs_from(nn, 2, i as nat, j as nat),
                runs_from(nn, 3, 0, nn) == run_len(nn, 3, 0),
                spec_taylorlen(nn, 3) <= 0x1000000,
                spec_taylorlen(nn, 3) == spec_taylorlen(nn, 2) + run_len(nn, 3, 0),
                forall|m: int| 0 <= m < start ==> plan@[m] == old(plan)@[m],
                tier_prefix(nn, 3, plan@, start, plan@.len() as int),
            decreases n - j,
        {
            let mut k: usize = j;
            while k < n
                invariant
                    1 <= n <= 20,
                    nn == n,
                    size == 8,
                    i < n,
                    j < n,
                    i <= j <= k <= n,
                    0 <= start == old(plan)@.len(),
                    base == spec_taylorlen(nn, 2),
                    plan@.len() == start + runs_from(nn, 3, 0, i as nat) + runs_from(
                        nn,
                        2,
                        i as nat,
                        j as nat,
                    ) + (k - j),
                    slot == base + runs_from(nn, 3, 0, i as nat) + runs_from(
                        nn,
                        2,
                        i as nat,
                        j as nat,
                    ) + (k - j),
                    runs_from(nn, 3, 0, nn) == run_len(nn, 3, 0),
                    spec_taylorlen(nn, 3) <= 0x1000000,
                    spec_taylorlen(nn, 3) == spec_taylorlen(nn, 2) + run_len(nn, 3, 0),
                    forall|m: int| 0 <= m < start ==> plan@[m] == old(plan)@[m],
                    tier_prefix(nn, 3, plan@, start, plan@.len() as int),
                decreases n - k,
            {
                let ghost tuple = seq![i as nat, j as nat, k as nat];
                proof {
                    lemma_tuple3_rank(nn, i as nat, j as nat, k as nat);
                    assert(valid_tuple(nn, tuple, 0));
                    lemma_rank_bound(nn, tuple, 0);
                    vstd::arithmetic::power2::lemma2_to64();
                }
                let mut reads: Vec<ReadOut> = Vec::new();
                reads.push(ReadOut { to: slot, coeff: 7, subtract: false });
                let launch = Launch {
                    order: 3,
                    copies: constant_copies_vec(n, size),
                    seeds: vec![i * size + 1, j * size + 2, k * size + 4],
                    reads,
                };
                proof {
                    assert(launch.seeds@ =~= tuple_seeds(tuple, 8));
                    lemma_launch_tuple(launch, tuple, nn);
                    assert(launch.reads@ =~= tier_reads(nn, 3, tuple));
                    assert(tier_entry(nn, 3, plan@.len() - start, launch));
                }
                let ghost before = plan@;
                plan.push(launch);
                proof {
                    lemma_push_entry(nn, 3, before, plan@, launch, start);
                }
                slot = slot + 1;
                k = k + 1;
            }
            proof {
                assert(run_len(nn, 1, j as nat) == nn - j) by {
                    crate::taylor::lemma_binom_one((nn - j) as nat);
                }
            }
            j = j + 1;
        }
        proof {
            lemma_runs_from_total(nn, 2, i as nat, nn);
            lemma_run_len_empty(nn, 2);
        }
        i = i + 1;
    }
}


/// Appends the fourth-degree launches: one per quadruple `i <= j <= k <= l`,
/// in lexicographic order.
fn push_tier4(plan: &mut Vec<Launch>, n: usize)
    requires
        1 <= n <= 20,
    ensures
        final(plan)@.len() == old(plan)@.len() + run_len(n as nat, 4, 0),
        forall|m: int| 0 <= m < old(plan)@.len() ==> final(plan)@[m] == old(plan)@[m],
        tier_block(n as nat, 4, final(plan)@, old(plan)@.len() as int),
{
    let ghost nn = n as nat;
    let ghost start = plan@.len() as int;
    proof {
        lemma_small_taylorlen(nn, 4);
        lemma_small_taylorlen(nn, 3);
        lemma_runs_from_total(nn, 4, 0, nn);
        lemma_run_len_empty(nn, 4);
        assert(spec_taylorlen(nn, 4) == spec_taylorlen(nn, 3) + run_len(nn, 4, 0)) by {
            assert(binom(nn + 4, 4) == binom(nn + 3, 3) + binom(nn + 3, 4));
        }
    }
    let size: usize = 16;
    let base = crate::taylor::inlen_triangle_count(n, 3);
    let mut slot: usize = base;
    let mut i: usize = 0;
    while i < n
        invariant
            1 <= n <= 20,
            nn == n,
            size == 16,
            0 <= start == old(plan)@.len(),
            base == spec_taylorlen(nn, 3),
            runs_from(nn, 4, 0, nn) == run_len(nn, 4, 0),
            spec_taylorlen(nn, 4) <= 0x1000000,
            spec_taylorlen(nn, 4) == spec_taylorlen(nn, 3) + run_len(nn, 4, 0),
            forall|m: int| 0 <= m < start ==> plan@[m] == old(plan)@[m],
            tier_prefix(nn, 4, plan@, start, plan@.len() as int),
            i <= n,
            plan@.len() == start + runs_from(nn, 4, 0, i as nat),
            slot == base + runs_from(nn, 4, 0, i as nat),
        decreases n - i,
    {
        let mut j: usize = i;
        while j < n
            invariant
                1 <= n <= 20,
                nn == n,
                size == 16,
                0 <= start == old(plan)@.len(),
                base == spec_taylorlen(nn, 3),
                runs_from(nn, 4, 0, nn) == run_len(nn, 4, 0),
                spec_taylorlen(nn, 4) <= 0x1000000,
                spec_taylorlen(nn, 4) == spec_taylorlen(nn, 3) + run_len(nn, 4, 0),
                forall|m: int| 0 <= m < start ==> plan@[m] == old(plan)@[m],
                tier_prefix(nn, 4, plan@, start, plan@.len() as int),
                i < n,
                i <= j <= n,
                plan@.len() == start + runs_from(nn, 4, 0, i as nat) + runs_from(nn, 3, i as nat, j as nat),
                slot == base + runs_from(nn, 4, 0, i as nat) + runs_from(nn, 3, i as nat, j as nat),
            decreases n - j,
        {
            let mut k: usize = j;
            while k < n
                invariant
                    1 <= n <= 20,
                    nn == n,
                    size == 16,
                    0 <= start == old(plan)@.len(),
                    base == spec_taylorlen(nn, 3),
                    runs_from(nn, 4, 0, nn) == run_len(nn, 4, 0),
                    spec_taylorlen(nn, 4) <= 0x1000000,
                    spec_taylorlen(nn, 4) == spec_taylorlen(nn, 3) + run_len(nn, 4, 0),
                    forall|m: int| 0 <= m < start ==> plan@[m] == old(plan)@[m],
                    tier_prefix(nn, 4, plan@, start, plan@.len() as int),
                    i < n,
                    j < n,
                    i <= j <= k <= n,
                    plan@.len() == start + runs_from(nn, 4, 0, i as nat) + runs_from(nn, 3, i as nat, j as nat)
                        + runs_from(nn, 2, j as nat, k as nat),
                    slot == base + runs_from(nn, 4, 0, i as nat) + runs_from(nn, 3, i as nat, j as nat)
                        + runs_from(nn, 2, j as nat, k as nat),
                decreases n - k,
            {
                let mut l: usize = k;
                while l < n
                    invariant
                        1 <= n <= 20,
                        nn == n,
                        size == 16,
                        0 <= start == old(plan)@.len(),
                        base == spec_taylorlen(nn, 3),
                        runs_from(nn, 4, 0, nn) == run_len(nn, 4, 0),
                        spec_taylorlen(nn, 4) <= 0x1000000,
                        spec_taylorlen(nn, 4) == spec_taylorlen(nn, 3) + run_len(nn, 4, 0),
                        forall|m: int| 0 <= m < start ==> plan@[m] == old(plan)@[m],
                        tier_prefix(nn, 4, plan@, start, plan@.len() as int),
                        i < n,
                        j < n,
                        k < n,
                        i <= j <= k <= l <= n,
                        plan@.len() == start + runs_from(nn, 4, 0, i as nat) + runs_from(nn, 3, i as nat, j as nat)
                            + runs_from(nn, 2, j as nat, k as nat) + (l - k),
                        slot == base + runs_from(nn, 4, 0, i as nat) + runs_from(nn, 3, i as nat, j as nat)
                            + runs_from(nn, 2, j as nat, k as nat) + (l - k),
                    decreases n - l,
                {
                    let ghost tuple = seq![i as nat, j as nat, k as nat, l as nat];
                    proof {
                        lemma_tuple4_rank(nn, i as nat, j as nat, k as nat, l as nat);
                        assert(valid_tuple(nn, tuple, 0));
                        lemma_rank_bound(nn, tuple, 0);
                        vstd::arithmetic::power2::lemma2_to64();
                    }
                    let mut reads: Vec<ReadOut> = Vec::new();
                    reads.push(ReadOut { to: slot, coeff: 15, subtract: false });
                    let launch = Launch {
                        order: 4,
                        copies: constant_copies_vec(n, size),
                        seeds: vec![i * size + 1, j * size + 2, k * size + 4, l * size + 8],
                        reads,
                    };
                    proof {
                        assert(launch.seeds@ =~= tuple_seeds(tuple, 16));
                        lemma_launch_tuple(launch, tuple, nn);
                        assert(launch.reads@ =~= tier_reads(nn, 4, tuple));
                        assert(tier_entry(nn, 4, plan@.len() - start, launch));
                    }
                    let ghost before = plan@;
                    plan.push(launch);
                    proof {
                        lemma_push_entry(nn, 4, before, plan@, launch, start);
                    }
                    slot = slot + 1;
                    l = l + 1;
                }
                proof {
                    assert(run_len(nn, 1, k as nat) == nn - k) by {
                        crate::taylor::lemma_binom_one((nn - k) as nat);
                    }
                }
                k = k + 1;
            }
            proof {
                lemma_runs_from_total(nn, 2, j as nat, nn);
                lemma_run_len_empty(nn, 2);
            }
            j = j + 1;
        }
        proof {
            lemma_runs_from_total(nn, 3, i as nat, nn);
            lemma_run_len_empty(nn, 3);
        }
        i = i + 1;
    }
}


/// Reads of the first-order launch along variable `i`: its first derivative,
/// and with the last variable also the energy.
pub open spec fn first_order_reads(n: nat, i: nat) -> Seq<ReadOut> {
    seq![add_read(i + 1, 1)] + if i == n - 1 {
        seq![add_read(0, 0)]
    } else {
        Seq::<ReadOut>::empty()
    }
}

/// `plan` is the launch plan of a partial-derivatives evaluation at `order`
/// on `n` variables:
/// - order 0: one plain launch whose value is the energy;
/// - order 1 on two variables: one launch seeding the first direction on the
///   first variable and the second on the second, read for the energy and
///   both first derivatives;
/// - order 1 otherwise: one launch per variable, read for its first
///   derivative, the last one also for the energy;
/// - order 2 and up: the launches of every degree from two to `order`, by
///   degree and then by the rank of their monomials; the second-degree
///   launches also yield the first derivatives and the energy.
pub open spec fn spec_partial_plan(n: nat, order: nat, plan: Seq<Launch>) -> bool {
    if order == 0 {
        &&& plan.len() == 1
        &&& seeded_launch(plan[0], n, 0, Seq::<nat>::empty(), seq![add_read(0, 0)])
    } else if order == 1 {
        if n == 2 {
            &&& plan.len() == 1
            &&& seeded_launch(
                plan[0],
                n,
                2,
                seq![0nat, 1nat],
                seq![add_read(0, 0), add_read(1, 1), add_read(2, 2)],
            )
        } else {
            &&& plan.len() == n
            &&& forall|i: int|
                0 <= i < n ==> seeded_launch(
                    #[trigger] plan[i],
                    n,
                    2,
                    seq![i as nat],
                    first_order_reads(n, i as nat),
                )
        }
    } else {
        &&& plan.len() == spec_taylorlen(n, order) - spec_taylorlen(n, 1)
        &&& tier_block(n, 2, plan, 0)
        &&& order >= 3 ==> tier_block(
            n,
            3,
            plan,
            spec_taylorlen(n, 2) - spec_taylorlen(n, 1),
        )
        &&& order >= 4 ==> tier_block(
            n,
            4,
            plan,
            spec_taylorlen(n, 3) - spec_taylorlen(n, 1),
        )
    }
}

/// The kernel launches of a partial-derivatives evaluation at `order` on the
/// layout `vars`, and which kernel coefficients land in which output slots;
/// orders above four are refused.
pub fn partial_derivative_plan(vars: Vars, order: u32) -> (r: Result<Vec<Launch>, XcError>)
    ensures
        order > MAX_PARTIAL_ORDER ==> r == Err::<Vec<Launch>, XcError>(
            XcError::InvalidOrder {
                order,
                mode: Mode::PartialDerivatives,
                n_vars: spec_input_len(vars) as usize,
            },
        ),
        order <= MAX_PARTIAL_ORDER ==> (r matches Ok(plan) && spec_partial_plan(
            spec_input_len(vars),
            order as nat,
            plan@,
        )),
{
    let n = vars.input_len();
    let ghost nn = n as nat;
    if order > MAX_PARTIAL_ORDER {
        return Err(XcError::InvalidOrder { order, mode: Mode::PartialDerivatives, n_vars: n });
    }
    proof {
        vstd::arithmetic::power2::lemma2_to64();
    }
    let mut plan: Vec<Launch> = Vec::new();
    if order == 0 {
        let launch = Launch {
            order: 0,
            copies: constant_copies_vec(n, 1),
            seeds: Vec::new(),
            reads: vec![ReadOut { to: 0, coeff: 0, subtract: false }],
        };
        proof {
            assert(launch.seeds@ =~= tuple_seeds(Seq::<nat>::empty(), 1));
            assert(launch.reads@ =~= seq![add_read(0, 0)]);
        }
        plan.push(launch);
        return Ok(plan);
    }
    if order == 1 {
        if n == 2 {
            let launch = Launch {
                order: 2,
                copies: constant_copies_vec(n, 4),
                seeds: vec![1, 6],
                reads: vec![
                    ReadOut { to: 0, coeff: 0, subtract: false },
                    ReadOut { to: 1, coeff: 1, subtract: false },
                    ReadOut { to: 2, coeff: 2, subtract: false },
                ],
            };
            proof {
                assert(launch.seeds@ =~= tuple_seeds(seq![0nat, 1nat], 4));
                assert(launch.reads@ =~= seq![add_read(0, 0), add_read(1, 1), add_read(2, 2)]);
            }
            plan.push(launch);
            return Ok(plan);
        }
        let mut i: usize = 0;
        while i < n
            invariant
                1 <= n <= 20,
                nn == n,
                i <= n,
                plan@.len() == i,
                forall|m: int|
                    0 <= m < i ==> seeded_launch(
                        #[trigger] plan@[m],
                        nn,
                        2,
                        seq![m as nat],
                        first_order_reads(nn, m as nat),
                    ),
            decreases n - i,
        {
            let mut reads: Vec<ReadOut> = Vec::new();
            reads.push(ReadOut { to: i + 1, coeff: 1, subtract: false });
            if i == n - 1 {
                reads.push(ReadOut { to: 0, coeff: 0, subtract: false });
            }
            let launch = Launch {
                order: 2,
                copies: constant_copies_vec(n, 4),
                seeds: vec![i * 4 + 1],
                reads,
            };
            proof {
                vstd::arithmetic::power2::lemma2_to64();
                assert(launch.seeds@ =~= tuple_seeds(seq![i as nat], 4));
                assert(launch.reads@ =~= first_order_reads(nn, i as nat));
            }
            let ghost before = plan@;
            plan.push(launch);
            proof {
                assert forall|m: int| 0 <= m < i + 1 implies seeded_launch(
                    #[trigger] plan@[m],
                    nn,
                    2,
                    seq![m as nat],
                    first_order_reads(nn, m as nat),
                ) by {
                    if m < i {
                        assert(before.push(launch)[m] == before[m]);
                    }
                }
            }
            i = i + 1;
        }
        return Ok(plan);
    }
    proof {
        lemma_small_taylorlen(nn, 1);
        lemma_small_taylorlen(nn, 2);
        lemma_small_taylorlen(nn, 3);
        lemma_small_taylorlen(nn, 4);
        lemma_taylorlen_step(nn, 2);
        lemma_taylorlen_step(nn, 3);
        lemma_taylorlen_step(nn, 4);
    }
    push_tier2(&mut plan, n);
    if order >= 3 {
        let ghost p2 = plan@;
        push_tier3(&mut plan, n);
        proof {
            lemma_tier_block_kept(nn, 2, p2, plan@, 0);
        }
    }
    if order >= 4 {
        let ghost p3 = plan@;
        push_tier4(&mut plan, n);
        proof {
            lemma_tier_block_kept(nn, 2, p3, plan@, 0);
            lemma_tier_block_kept(nn, 3, p3, plan@, spec_taylorlen(nn, 2) - spec_taylorlen(nn, 1));
        }
    }
    Ok(plan)
}

/// Each degree adds its monomials to the Taylor length.
proof fn lemma_taylorlen_step(n: nat, t: nat)
    requires
        t >= 1,
    ensures
        spec_taylorlen(n, t) == spec_taylorlen(n, (t - 1) as nat) + run_len(n, t, 0),
{
    assert(binom(n + t, t) == binom((n + t - 1) as nat, (t - 1) as nat) + binom(
        (n + t - 1) as nat,
        t,
    ));
}

/// A complete block stays one when launches are appended after it.
proof fn lemma_tier_block_kept(n: nat, t: nat, before: Seq<Launch>, after: Seq<Launch>, start: int)
    requires
        tier_block(n, t, before, start),
        before.len() <= after.len(),
        forall|m: int| 0 <= m < before.len() ==> after[m] == before[m],
        0 <= start,
    ensures
        tier_block(n, t, after, start),
{
    assert forall|m: int| start <= m < start + run_len(n, t, 0) implies #[trigger] tier_entry(
        n,
        t,
        m - start,
        after[m],
    ) by {
        assert(after[m] == before[m]);
    }
}


/// `(m, p)` names a read of `plan`: the `p`-th read of the `m`-th launch.
pub open spec fn is_read(plan: Seq<Launch>, m: int, p: int) -> bool {
    0 <= m < plan.len() && 0 <= p < plan[m].reads@.len()
}

/// Some read of `plan` lands in the output slot `s`.
pub open spec fn slot_filled(plan: Seq<Launch>, s: int) -> bool {
    exists|m: int, p: int| #[trigger] is_read(plan, m, p) && plan[m].reads@[p].to == s
}

/// Where a read of a plan of order two and up lands: the first read of
/// launch `m` at slot `n + 1 + m`, the second (second-degree launches with the
/// last variable last) at the first derivative of their first variable, the
/// third (the launch of the last monomial) at the energy.
proof fn lemma_high_order_read(n: nat, order: nat, plan: Seq<Launch>, m: int, p: int)
    requires
        1 <= n <= 20,
        2 <= order <= 4,
        spec_partial_plan(n, order, plan),
        is_read(plan, m, p),
    ensures
        !plan[m].reads@[p].subtract,
        plan[m].reads@[p].coeff < vstd::arithmetic::power2::pow2(plan[m].order as nat),
        p == 0 ==> plan[m].reads@[p].to == n + 1 + m,
        p >= 1 ==> {
            &&& m < run_len(n, 2, 0)
            &&& tier_entry(n, 2, m, plan[m])
            &&& launch_tuple(plan[m])[1] == n - 1
            &&& plan[m].reads@[1].to == launch_tuple(plan[m])[0] + 1
        },
        p == 2 ==> launch_tuple(plan[m]) == seq![(n - 1) as nat, (n - 1) as nat]
            && plan[m].reads@[p].to == 0,
        p <= 2,
{
    vstd::arithmetic::power2::lemma2_to64();
    lemma_small_taylorlen(n, 4);
    lemma_taylorlen_step(n, 2);
    lemma_taylorlen_step(n, 3);
    lemma_taylorlen_step(n, 4);
    lemma_small_taylorlen(n, 1);
    crate::taylor::lemma_binom_one(n + 1);
    let c2 = run_len(n, 2, 0);
    let c3 = run_len(n, 3, 0);
    if m < c2 {
        assert(tier_entry(n, 2, m - 0, plan[m]));
        let tu = launch_tuple(plan[m]);
        if p == 2 {
            assert(tu[0] <= tu[1] < n);
            assert(tu =~= seq![(n - 1) as nat, (n - 1) as nat]);
        }
    } else if m < c2 + c3 {
        assert(order >= 3);
        assert(tier_entry(n, 3, m - c2, plan[m]));
    } else {
        assert(order >= 4);
        assert(tier_entry(n, 4, m - (c2 + c3), plan[m]));
    }
}

/// The plan of a partial-derivatives evaluation fills the Taylor layout:
/// every read lands in a slot below the Taylor length, adds its value, and
/// takes a coefficient the launch computes; every slot is filled; and no two
/// reads fill the same slot.
pub proof fn law_partial_plan_fills_taylor_layout(n: nat, order: nat, plan: Seq<Launch>)
    requires
        1 <= n <= 20,
        order <= 4,
        spec_partial_plan(n, order, plan),
    ensures
        forall|m: int, p: int|
            #[trigger] is_read(plan, m, p) ==> plan[m].reads@[p].to < spec_taylorlen(n, order)
                && !plan[m].reads@[p].subtract && plan[m].reads@[p].coeff
                < vstd::arithmetic::power2::pow2(plan[m].order as nat),
        forall|s: int| 0 <= s < spec_taylorlen(n, order) ==> #[trigger] slot_filled(plan, s),
        forall|m1: int, p1: int, m2: int, p2: int|
            #[trigger] is_read(plan, m1, p1) && #[trigger] is_read(plan, m2, p2)
                && plan[m1].reads@[p1].to == plan[m2].reads@[p2].to ==> m1 == m2 && p1 == p2,
{
    vstd::arithmetic::power2::lemma2_to64();
    crate::taylor::lemma_binom_one(n + 1);
    if order == 0 {
        assert(spec_taylorlen(n, 0) == 1);
        assert(is_read(plan, 0, 0) && plan[0].reads@[0].to == 0);
        assert(slot_filled(plan, 0));
    } else if order == 1 {
        assert(spec_taylorlen(n, 1) == n + 1);
        if n == 2 {
            assert forall|s: int| 0 <= s < spec_taylorlen(n, order) implies #[trigger] slot_filled(plan, s) by {
                assert(is_read(plan, 0, s) && plan[0].reads@[s].to == s);
            }
        } else {
            assert forall|s: int| 0 <= s < spec_taylorlen(n, order) implies #[trigger] slot_filled(plan, s) by {
                if s == 0 {
                    assert(seeded_launch(plan[n - 1], n, 2, seq![(n - 1) as nat], first_order_reads(n, (n - 1) as nat)));
                    assert(is_read(plan, n - 1, 1) && plan[n - 1].reads@[1].to == s);
                } else {
                    assert(seeded_launch(plan[s - 1], n, 2, seq![(s - 1) as nat], first_order_reads(n, (s - 1) as nat)));
                    assert(is_read(plan, s - 1, 0) && plan[s - 1].reads@[0].to == s);
                }
            }
            assert forall|m: int, p: int| #[trigger] is_read(plan, m, p) implies plan[m].reads@[p].to
                < spec_taylorlen(n, order) && !plan[m].reads@[p].subtract && plan[m].reads@[p].coeff
                < vstd::arithmetic::power2::pow2(plan[m].order as nat) by {
                assert(seeded_launch(plan[m], n, 2, seq![m as nat], first_order_reads(n, m as nat)));
            }
            assert forall|m1: int, p1: int, m2: int, p2: int|
                #[trigger] is_read(plan, m1, p1) && #[trigger] is_read(plan, m2, p2)
                    && plan[m1].reads@[p1].to == plan[m2].reads@[p2].to implies m1 == m2 && p1 == p2 by {
                assert(seeded_launch(plan[m1], n, 2, seq![m1 as nat], first_order_reads(n, m1 as nat)));
                assert(seeded_launch(plan[m2], n, 2, seq![m2 as nat], first_order_reads(n, m2 as nat)));
            }
        }
    } else {
        lemma_small_taylorlen(n, 1);
        assert forall|m: int, p: int| #[trigger] is_read(plan, m, p) implies plan[m].reads@[p].to
            < spec_taylorlen(n, order) && !plan[m].reads@[p].subtract && plan[m].reads@[p].coeff
            < vstd::arithmetic::power2::pow2(plan[m].order as nat) by {
            lemma_high_order_read(n, order, plan, m, p);
            if p >= 1 {
                let tu = launch_tuple(plan[m]);
                assert(tu[0] < n);
            }
        }
        assert forall|s: int| 0 <= s < spec_taylorlen(n, order) implies #[trigger] slot_filled(plan, s) by {
            if s >= n + 1 {
                let m = s - n - 1;
                lemma_high_order_read_exists(n, order, plan, m);
                lemma_high_order_read(n, order, plan, m, 0);
                assert(is_read(plan, m, 0) && plan[m].reads@[0].to == s);
            } else {
                let i: nat = if s == 0 { (n - 1) as nat } else { (s - 1) as nat };
                let tu = seq![i, (n - 1) as nat];
                assert(valid_tuple(n, tu, 0));
                lemma_rank_bound(n, tu, 0);
                let m = rank(n, tu, 0) as int;
                assert(tier_entry(n, 2, m - 0, plan[m]));
                let found = launch_tuple(plan[m]);
                crate::monomial::lemma_rank_injective(n, found, tu, 0);
                lemma_high_order_read(n, order, plan, m, 1);
                if s == 0 {
                    assert(plan[m].reads@ == tier_reads(n, 2, found));
                    assert(plan[m].reads@.len() == 3);
                    lemma_high_order_read(n, order, plan, m, 2);
                    assert(is_read(plan, m, 2) && plan[m].reads@[2].to == s);
                } else {
                    assert(plan[m].reads@ == tier_reads(n, 2, found));
                    assert(plan[m].reads@.len() >= 2);
                    assert(is_read(plan, m, 1) && plan[m].reads@[1].to == s);
                }
            }
        }
        assert forall|m1: int, p1: int, m2: int, p2: int|
            #[trigger] is_read(plan, m1, p1) && #[trigger] is_read(plan, m2, p2)
                && plan[m1].reads@[p1].to == plan[m2].reads@[p2].to implies m1 == m2 && p1 == p2 by {
            lemma_high_order_read(n, order, plan, m1, p1);
            lemma_high_order_read(n, order, plan, m2, p2);
            let t1 = launch_tuple(plan[m1]);
            let t2 = launch_tuple(plan[m2]);
            if p1 >= 1 {
                assert(t1[0] < n);
            }
            if p2 >= 1 {
                assert(t2[0] < n);
            }
            if p1 >= 1 && p2 >= 1 {
                if p1 == 1 && p2 == 1 {
                    assert(t1 =~= t2);
                } else if p1 == 2 && p2 == 2 {
                    assert(t1 =~= t2);
                } else if p1 == 1 {
                    assert(t1[0] + 1 == 0);
                } else {
                    assert(t2[0] + 1 == 0);
                }
                crate::monomial::lemma_rank_injective(n, t1, t2, 0);
            }
        }
    }
}

/// Every launch index of a plan of order two and up has its first read.
proof fn lemma_high_order_read_exists(n: nat, order: nat, plan: Seq<Launch>, m: int)
    requires
        1 <= n <= 20,
        2 <= order <= 4,
        spec_partial_plan(n, order, plan),
        0 <= m < plan.len(),
    ensures
        is_read(plan, m, 0),
{
    lemma_small_taylorlen(n, 4);
    lemma_taylorlen_step(n, 2);
    lemma_taylorlen_step(n, 3);
    lemma_taylorlen_step(n, 4);
    lemma_small_taylorlen(n, 1);
    crate::taylor::lemma_binom_one(n + 1);
    let c2 = run_len(n, 2, 0);
    let c3 = run_len(n, 3, 0);
    if m < c2 {
        assert(tier_entry(n, 2, m - 0, plan[m]));
    } else if m < c2 + c3 {
        assert(order >= 3);
        assert(tier_entry(n, 3, m - c2, plan[m]));
    } else {
        assert(order >= 4);
        assert(tier_entry(n, 4, m - (c2 + c3), plan[m]));
    }
}


/// Number of potential channels and the stride between the density values
/// of the channels, for a layout of `inlen` values: single-spin layouts (one
/// value, or density with gradient and Hessian) have one channel; two-spin
/// layouts have two, one value or ten values apart.
pub open spec fn spec_potential_channels(inlen: nat) -> Option<(nat, nat)> {
    if inlen == 1 || inlen == 10 {
        Some((1nat, 0nat))
    } else if inlen == 2 {
        Some((2nat, 1nat))
    } else if inlen == 20 {
        Some((2nat, 10nat))
    } else {
        None
    }
}

/// Reads of the density launch of channel `j` out of `npot`: the potential
/// of the channel, and with the last channel also the energy.
pub open spec fn density_potential_reads(j: nat, npot: nat) -> Seq<ReadOut> {
    seq![add_read(j + 1, 1)] + if j == npot - 1 {
        seq![add_read(0, 0)]
    } else {
        Seq::<ReadOut>::empty()
    }
}

/// `plan` is the density pass of a potential evaluation on `inlen` values:
/// per channel one first-order launch seeding the channel's density.
pub open spec fn spec_density_potential_plan(inlen: nat, plan: Seq<Launch>) -> bool {
    let (npot, inpos) = spec_potential_channels(inlen)->Some_0;
    &&& plan.len() == npot
    &&& forall|j: int|
        0 <= j < npot ==> seeded_launch(
            #[trigger] plan[j],
            inlen,
            1,
            seq![(j * inpos) as nat],
            density_potential_reads(j as nat, npot),
        )
}

/// The density pass of a potential evaluation on the layout `vars`: one
/// launch per spin channel; layouts that are neither a density nor a
/// density with gradient and Hessian, of one or two spins, are refused.
pub fn density_potential_plan(vars: Vars) -> (r: Result<Vec<Launch>, XcError>)
    ensures
        spec_potential_channels(spec_input_len(vars)) is None ==> r == Err::<Vec<Launch>, XcError>(
            XcError::InvalidVars { vars, required: Dependency { bits: Dependency::DENSITY_BIT } },
        ),
        spec_potential_channels(spec_input_len(vars)) is Some ==> (r matches Ok(plan)
            && spec_density_potential_plan(spec_input_len(vars), plan@)),
{
    let inlen = vars.input_len();
    let ghost n = inlen as nat;
    let (npot, inpos): (usize, usize) = if inlen == 1 || inlen == 10 {
        (1, 0)
    } else if inlen == 2 {
        (2, 1)
    } else if inlen == 20 {
        (2, 10)
    } else {
        return Err(XcError::InvalidVars { vars, required: Dependency::density() });
    };
    proof {
        vstd::arithmetic::power2::lemma2_to64();
    }
    let mut plan: Vec<Launch> = Vec::new();
    let mut j: usize = 0;
    while j < npot
        invariant
            spec_potential_channels(n) == Some((npot as nat, inpos as nat)),
            n == inlen,
            1 <= inlen <= 20,
            npot <= 2,
            inpos <= 10,
            j <= npot,
            plan@.len() == j,
            forall|m: int|
                0 <= m < j ==> seeded_launch(
                    #[trigger] plan@[m],
                    n,
                    1,
                    seq![(m * inpos) as nat],
                    density_potential_reads(m as nat, npot as nat),
                ),
        decreases npot - j,
    {
        proof {
            assert(j * inpos <= 2 * 10) by (nonlinear_arith)
                requires
                    j < 2,
                    inpos <= 10,
            ;
        }
        let mut reads: Vec<ReadOut> = Vec::new();
        reads.push(ReadOut { to: j + 1, coeff: 1, subtract: false });
        if j == npot - 1 {
            reads.push(ReadOut { to: 0, coeff: 0, subtract: false });
        }
        let launch = Launch {
            order: 1,
            copies: constant_copies_vec(inlen, 2),
            seeds: vec![j * inpos * 2 + 1],
            reads,
        };
        proof {
            vstd::arithmetic::power2::lemma2_to64();
            assert(launch.seeds@ =~= tuple_seeds(seq![(j * inpos) as nat], 2));
            assert(launch.reads@ =~= density_potential_reads(j as nat, npot as nat));
        }
        let ghost before = plan@;
        plan.push(launch);
        proof {
            assert forall|m: int| 0 <= m < j + 1 implies seeded_launch(
                #[trigger] plan@[m],
                n,
                1,
                seq![(m * inpos) as nat],
                density_potential_reads(m as nat, npot as nat),
            ) by {
                if m < j {
                    assert(before.push(launch)[m] == before[m]);
                }
            }
        }
        j = j + 1;
    }
    Ok(plan)
}

/// Position of the second derivative of the density along gradient
/// component `src` (1 to 3) and direction `dir` (0 to 2) in a layout with
/// gradient and Hessian: `xx xy xz yy yz zz` at 4 to 9.
pub open spec fn hess_slot(src: nat, dir: nat) -> nat {
    if src == 1 {
        4 + dir
    } else if src == 2 {
        if dir == 0 {
            5
        } else {
            6 + dir
        }
    } else {
        if dir == 2 {
            9
        } else {
            6 + 2 * dir
        }
    }
}

/// Copies of one spin channel starting at input value `off` for direction
/// `dir`: the density with its derivative along `dir`, and each gradient
/// component with its derivative along `dir`.
pub open spec fn spin_copies(off: nat, dir: nat) -> Seq<CopyIn> {
    seq![
        CopyIn { to: (off * 4) as usize, from: off as usize },
        CopyIn { to: (off * 4 + 1) as usize, from: (1 + dir + off) as usize },
        CopyIn { to: ((1 + off) * 4) as usize, from: (1 + off) as usize },
        CopyIn { to: ((1 + off) * 4 + 1) as usize, from: (hess_slot(1, dir) + off) as usize },
        CopyIn { to: ((2 + off) * 4) as usize, from: (2 + off) as usize },
        CopyIn { to: ((2 + off) * 4 + 1) as usize, from: (hess_slot(2, dir) + off) as usize },
        CopyIn { to: ((3 + off) * 4) as usize, from: (3 + off) as usize },
        CopyIn { to: ((3 + off) * 4 + 1) as usize, from: (hess_slot(3, dir) + off) as usize },
    ]
}

/// `l` is the gradient launch of channel `j` out of `nspin` along `dir`: it
/// fills every channel, seeds the second Taylor direction on the gradient
/// component `dir` of channel `j`, and subtracts the divergence term from the
/// channel's potential.
pub open spec fn gradient_launch(l: Launch, nspin: nat, j: nat, dir: nat) -> bool {
    &&& l.order == 2
    &&& l.copies@ == if nspin == 2 {
        spin_copies(0, dir) + spin_copies(10, dir)
    } else {
        spin_copies(0, dir)
    }
    &&& l.seeds@ == seq![(((1 + dir + 10 * j) * 4) + 2) as usize]
    &&& l.reads@ == seq![ReadOut { to: (j + 1) as usize, coeff: 3, subtract: true }]
}

/// The gradient pass of a potential evaluation on the layout `vars`: three
/// launches per spin channel, one per direction; layouts without gradient
/// and Hessian are refused.
pub fn gradient_potential_plan(vars: Vars) -> (r: Result<Vec<Launch>, XcError>)
    ensures
        spec_input_len(vars) != 10 && spec_input_len(vars) != 20 ==> r == Err::<
            Vec<Launch>,
            XcError,
        >(XcError::InvalidVars { vars, required: Dependency { bits: Dependency::GRADIENT_BIT } }),
        spec_input_len(vars) == 10 || spec_input_len(vars) == 20 ==> (r matches Ok(plan) && {
            let nspin: nat = if spec_input_len(vars) == 20 {
                2
            } else {
                1
            };
            &&& plan@.len() == 3 * nspin
            &&& forall|j: int, dir: int|
                0 <= j < nspin && 0 <= dir < 3 ==> gradient_launch(
                    #[trigger] plan@[3 * j + dir],
                    nspin,
                    j as nat,
                    dir as nat,
                )
        }),
{
    let inlen = vars.input_len();
    let nspin: usize = if inlen == 10 {
        1
    } else if inlen == 20 {
        2
    } else {
        return Err(XcError::InvalidVars { vars, required: Dependency::gradient() });
    };
    let mut plan: Vec<Launch> = Vec::new();
    let mut j: usize = 0;
    while j < nspin
        invariant
            nspin == 1 || nspin == 2,
            j <= nspin,
            plan@.len() == 3 * j,
            forall|jj: int, dir: int|
                0 <= jj < j && 0 <= dir < 3 ==> gradient_launch(
                    #[trigger] plan@[3 * jj + dir],
                    nspin as nat,
                    jj as nat,
                    dir as nat,
                ),
        decreases nspin - j,
    {
        let mut dir: usize = 0;
        while dir < 3
            invariant
                nspin == 1 || nspin == 2,
                j < nspin,
                dir <= 3,
                plan@.len() == 3 * j + dir,
                forall|jj: int, d: int|
                    (0 <= jj < j && 0 <= d < 3) || (jj == j && 0 <= d < dir) ==> gradient_launch(
                        #[trigger] plan@[3 * jj + d],
                        nspin as nat,
                        jj as nat,
                        d as nat,
                    ),
            decreases 3 - dir,
        {
            let mut copies: Vec<CopyIn> = Vec::new();
            let mut off: usize = 0;
            while off < 10 * nspin
                invariant
                    nspin == 1 || nspin == 2,
                    dir < 3,
                    off == 0 || off == 10 || off == 20,
                    off <= 10 * nspin,
                    off == 0 ==> copies@ == Seq::<CopyIn>::empty(),
                    off == 10 ==> copies@ == spin_copies(0, dir as nat),
                    off == 20 ==> copies@ == spin_copies(0, dir as nat) + spin_copies(
                        10,
                        dir as nat,
                    ),
                decreases 10 * nspin - off,
            {
                let ghost prev = copies@;
                copies.push(CopyIn { to: off * 4, from: off });
                copies.push(CopyIn { to: off * 4 + 1, from: 1 + dir + off });
                let mut src: usize = 1;
                while src <= 3
                    invariant
                        1 <= src <= 4,
                        dir < 3,
                        off == 0 || off == 10,
                        copies@.len() == prev.len() + 2 * src,
                        copies@ =~= prev + spin_copies(off as nat, dir as nat).take(2 * src),
                    decreases 4 - src,
                {
                    let h: usize = if src == 1 {
                        4 + dir
                    } else if src == 2 {
                        if dir == 0 {
                            5
                        } else {
                            6 + dir
                        }
                    } else {
                        if dir == 2 {
                            9
                        } else {
                            6 + 2 * dir
                        }
                    };
                    copies.push(CopyIn { to: (src + off) * 4, from: src + off });
                    copies.push(CopyIn { to: (src + off) * 4 + 1, from: h + off });
                    proof {
                        assert(copies@ =~= prev + spin_copies(off as nat, dir as nat).take(
                            2 * (src + 1),
                        ));
                    }
                    src = src + 1;
                }
                proof {
                    assert(spin_copies(off as nat, dir as nat).take(8) =~= spin_copies(
                        off as nat,
                        dir as nat,
                    ));
                }
                off = off + 10;
            }
            let launch = Launch {
                order: 2,
                copies,
                seeds: vec![((1 + dir + 10 * j) * 4) + 2],
                reads: vec![ReadOut { to: j + 1, coeff: 3, subtract: true }],
            };
            proof {
                assert(launch.seeds@ =~= seq![(((1 + dir + 10 * j) * 4) + 2) as usize]);
                assert(launch.reads@ =~= seq![
                    ReadOut { to: (j + 1) as usize, coeff: 3, subtract: true },
                ]);
            }
            let ghost before = plan@;
            plan.push(launch);
            proof {
                assert forall|jj: int, d: int|
                    (0 <= jj < j && 0 <= d < 3) || (jj == j && 0 <= d < dir + 1) implies gradient_launch(
                    #[trigger] plan@[3 * jj + d],
                    nspin as nat,
                    jj as nat,
                    d as nat,
                ) by {
                    if 3 * jj + d < before.len() {
                        assert(before.push(launch)[3 * jj + d] == before[3 * jj + d]);
                    }
                }
            }
            dir = dir + 1;
        }
        j = j + 1;
    }
    Ok(plan)
}


/// Every index a launch uses lies in its buffers: copies read the input of
/// `input_len` values and write the block of `inlen` expansions, seeds lie in
/// the block, reads take a coefficient of one expansion and write an output
/// slot below `output_len`.
pub open spec fn launch_in_bounds(l: Launch, inlen: nat, input_len: nat, output_len: nat) -> bool {
    let size = vstd::arithmetic::power2::pow2(l.order as nat);
    &&& l.order <= 6
    &&& forall|c: int|
        0 <= c < l.copies@.len() ==> (#[trigger] l.copies@[c]).from < input_len && l.copies@[c].to
            < inlen * size
    &&& forall|c: int| 0 <= c < l.seeds@.len() ==> #[trigger] l.seeds@[c] < inlen * size
    &&& forall|c: int|
        0 <= c < l.reads@.len() ==> (#[trigger] l.reads@[c]).coeff < size && l.reads@[c].to
            < output_len
}

pub open spec fn plan_in_bounds(plan: Seq<Launch>, inlen: nat, input_len: nat, output_len: nat) -> bool {
    forall|m: int| 0 <= m < plan.len() ==> launch_in_bounds(#[trigger] plan[m], inlen, input_len, output_len)
}

/// The flags of `want` are set in the dependency bits `deps`.
pub open spec fn deps_have(deps: u32, want: u32) -> bool {
    deps & want == want
}

/// `plan` is the launch plan of a potential evaluation on `vars` for
/// functionals with the dependency bits `deps`: the density pass, followed by
/// the gradient pass when some functional depends on the gradient.
pub open spec fn spec_potential_plan(vars: Vars, deps: u32, plan: Seq<Launch>) -> bool {
    let n = spec_input_len(vars);
    let (npot, inpos) = spec_potential_channels(n)->Some_0;
    let nspin: nat = if n == 20 {
        2
    } else {
        1
    };
    &&& spec_density_potential_plan(n, plan.take(npot as int))
    &&& !deps_have(deps, Dependency::GRADIENT_BIT) ==> plan.len() == npot
    &&& deps_have(deps, Dependency::GRADIENT_BIT) ==> {
        &&& plan.len() == npot + 3 * nspin
        &&& forall|j: int, dir: int|
            0 <= j < nspin && 0 <= dir < 3 ==> gradient_launch(
                #[trigger] plan[npot + 3 * j + dir],
                nspin,
                j as nat,
                dir as nat,
            )
    }
}

/// The launch plan of a potential evaluation of `f`: functionals of the
/// Laplacian or of the kinetic energy density are refused; then the density
/// pass, and the gradient pass when some functional depends on the gradient.
pub fn potential_plan(f: &Functional) -> (r: Result<Vec<Launch>, XcError>)
    ensures
        ({
            let deps = spec_dependencies(f.functionals@);
            let n = spec_input_len(f.vars);
            if deps_have(deps, Dependency::LAPLACIAN_BIT) || deps_have(deps, Dependency::KINETIC_BIT) {
                r == Err::<Vec<Launch>, XcError>(
                    XcError::InvalidMode { mode: f.mode, depends: Dependency { bits: deps } },
                )
            } else if spec_potential_channels(n) is None {
                r == Err::<Vec<Launch>, XcError>(
                    XcError::InvalidVars {
                        vars: f.vars,
                        required: Dependency { bits: Dependency::DENSITY_BIT },
                    },
                )
            } else if deps_have(deps, Dependency::GRADIENT_BIT) && n != 10 && n != 20 {
                r == Err::<Vec<Launch>, XcError>(
                    XcError::InvalidVars {
                        vars: f.vars,
                        required: Dependency { bits: Dependency::GRADIENT_BIT },
                    },
                )
            } else {
                r matches Ok(plan) && spec_potential_plan(f.vars, deps, plan@)
            }
        }),
{
    let deps = f.dependencies();
    if deps.contains(Dependency::laplacian()) || deps.contains(Dependency::kinetic()) {
        return Err(XcError::InvalidMode { mode: f.mode, depends: deps });
    }
    let mut plan = match density_potential_plan(f.vars) {
        Ok(p) => p,
        Err(e) => {
            return Err(e);
        },
    };
    let ghost first = plan@;
    if deps.contains(Dependency::gradient()) {
        let mut grad = match gradient_potential_plan(f.vars) {
            Ok(p) => p,
            Err(e) => {
                return Err(e);
            },
        };
        let ghost g = grad@;
        plan.append(&mut grad);
        proof {
            assert(plan@ == first + g);
            assert(plan@.take(first.len() as int) =~= first);
            let nspin: nat = if spec_input_len(f.vars) == 20 {
                2
            } else {
                1
            };
            assert forall|j: int, dir: int|
                0 <= j < nspin && 0 <= dir < 3 implies gradient_launch(
                #[trigger] plan@[first.len() + 3 * j + dir],
                nspin,
                j as nat,
                dir as nat,
            ) by {
                assert(plan@[first.len() + 3 * j + dir] == g[3 * j + dir]);
            }
        }
    } else {
        proof {
            assert(plan@.take(first.len() as int) =~= first);
        }
    }
    Ok(plan)
}

/// `l` is the launch of a contracted evaluation at `order` on `inlen` values:
/// the input is the whole expansion block, and each coefficient of the result
/// goes to the output slot of the same index.
pub open spec fn contracted_launch(l: Launch, inlen: nat, order: nat) -> bool {
    let size = vstd::arithmetic::power2::pow2(order);
    &&& l.order == order
    &&& l.copies@ == Seq::new(
        inlen * size,
        |k: int| CopyIn { to: k as usize, from: k as usize },
    )
    &&& l.seeds@.len() == 0
    &&& l.reads@ == Seq::new(size, |k: int| add_read(k as nat, k as nat))
}

/// The launch of a contracted evaluation of `f` with an input buffer of
/// `input_len` values and an output buffer of `output_len` values: orders
/// above six are refused, then buffers of the wrong length.
pub fn contracted_plan(f: &Functional, input_len: usize, output_len: usize) -> (r: Result<
    Launch,
    XcError,
>)
    ensures
        ({
            let n = spec_input_len(f.vars);
            let size = vstd::arithmetic::power2::pow2(f.order as nat);
            if f.order > MAX_CONTRACTED_ORDER {
                r == Err::<Launch, XcError>(
                    XcError::InvalidOrder { order: f.order, mode: f.mode, n_vars: n as usize },
                )
            } else if input_len != n * size {
                r == Err::<Launch, XcError>(
                    XcError::InputLengthMismatch { expected: (n * size) as usize, got: input_len },
                )
            } else if output_len != size {
                r == Err::<Launch, XcError>(
                    XcError::OutputLengthMismatch { expected: size as usize, got: output_len },
                )
            } else {
                r matches Ok(l) && contracted_launch(l, n, f.order as nat) && launch_in_bounds(
                    l,
                    n,
                    input_len as nat,
                    output_len as nat,
                )
            }
        }),
{
    let inlen = f.vars.input_len();
    let order = f.order;
    if order > MAX_CONTRACTED_ORDER {
        return Err(XcError::InvalidOrder { order, mode: f.mode, n_vars: inlen });
    }
    proof {
        vstd::arithmetic::power2::lemma2_to64();
        vstd::bits::lemma_usize_shl_is_mul(1, order as usize);
    }
    let coeff_count: usize = 1usize << (order as usize);
    proof {
        assert(inlen * coeff_count <= 20 * 64) by (nonlinear_arith)
            requires
                inlen <= 20,
                coeff_count <= 64,
        ;
    }
    if input_len != inlen * coeff_count {
        return Err(XcError::InputLengthMismatch { expected: inlen * coeff_count, got: input_len });
    }
    if output_len != coeff_count {
        return Err(XcError::OutputLengthMismatch { expected: coeff_count, got: output_len });
    }
    let mut copies: Vec<CopyIn> = Vec::new();
    let mut k: usize = 0;
    while k < input_len
        invariant
            k <= input_len,
            copies@ == Seq::new(k as nat, |q: int| CopyIn { to: q as usize, from: q as usize }),
        decreases input_len - k,
    {
        copies.push(CopyIn { to: k, from: k });
        k = k + 1;
        proof {
            assert(copies@ =~= Seq::new(k as nat, |q: int| CopyIn { to: q as usize, from: q as usize }));
        }
    }
    let mut reads: Vec<ReadOut> = Vec::new();
    let mut c: usize = 0;
    while c < coeff_count
        invariant
            c <= coeff_count,
            reads@ == Seq::new(c as nat, |q: int| add_read(q as nat, q as nat)),
        decreases coeff_count - c,
    {
        reads.push(ReadOut { to: c, coeff: c, subtract: false });
        c = c + 1;
        proof {
            assert(reads@ =~= Seq::new(c as nat, |q: int| add_read(q as nat, q as nat)));
        }
    }
    let launch = Launch { order, copies, seeds: Vec::new(), reads };
    proof {
        assert(launch.seeds@.len() == 0);
    }
    Ok(launch)
}


/// A launch seeded for a tuple of variables below `n` uses only indices of
/// its block.
proof fn lemma_seeded_in_bounds(l: Launch, n: nat, order: nat, tuple: Seq<nat>, reads: Seq<ReadOut>)
    requires
        seeded_launch(l, n, order, tuple, reads),
        1 <= n <= 20,
        order <= 6,
        tuple.len() <= order,
        forall|v: int| 0 <= v < tuple.len() ==> #[trigger] tuple[v] < n,
    ensures
        l.order <= 6,
        forall|c: int|
            0 <= c < l.copies@.len() ==> (#[trigger] l.copies@[c]).from < n && l.copies@[c].to < n
                * vstd::arithmetic::power2::pow2(order),
        forall|c: int|
            0 <= c < l.seeds@.len() ==> #[trigger] l.seeds@[c] < n * vstd::arithmetic::power2::pow2(
                order,
            ),
{
    let size = vstd::arithmetic::power2::pow2(order);
    vstd::arithmetic::power2::lemma2_to64();
    assert(size <= 64);
    assert forall|c: int| 0 <= c < l.copies@.len() implies (#[trigger] l.copies@[c]).from < n
        && l.copies@[c].to < n * size by {
        assert(c * size < n * size) by (nonlinear_arith)
            requires
                0 <= c < n,
                size >= 1,
        ;
        assert(c * size <= 20 * 64) by (nonlinear_arith)
            requires
                0 <= c < 20,
                size <= 64,
        ;
    }
    assert forall|c: int| 0 <= c < l.seeds@.len() implies #[trigger] l.seeds@[c] < n * size by {
        let x = tuple[c];
        vstd::arithmetic::power2::lemma_pow2_strictly_increases(c as nat, order);
        let p = vstd::arithmetic::power2::pow2(c as nat);
        assert(x * size + p < n * size) by (nonlinear_arith)
            requires
                x + 1 <= n,
                p < size,
        ;
        assert(x * size + p <= 20 * 64) by (nonlinear_arith)
            requires
                x < 20,
                p < size,
                size <= 64,
        ;
    }
}

/// Every launch of a partial-derivatives plan stays inside its buffers: the
/// input of `n` values, the expansion block, and the Taylor-length output.
pub proof fn law_partial_plan_in_bounds(n: nat, order: nat, plan: Seq<Launch>)
    requires
        1 <= n <= 20,
        order <= 4,
        spec_partial_plan(n, order, plan),
    ensures
        plan_in_bounds(plan, n, n, spec_taylorlen(n, order)),
{
    law_partial_plan_fills_taylor_layout(n, order, plan);
    vstd::arithmetic::power2::lemma2_to64();
    assert forall|m: int| 0 <= m < plan.len() implies launch_in_bounds(
        #[trigger] plan[m],
        n,
        n,
        spec_taylorlen(n, order),
    ) by {
        let l = plan[m];
        assert forall|c: int| 0 <= c < l.reads@.len() implies (#[trigger] l.reads@[c]).coeff
            < vstd::arithmetic::power2::pow2(l.order as nat) && l.reads@[c].to < spec_taylorlen(
            n,
            order,
        ) by {
            assert(is_read(plan, m, c));
        }
        if order == 0 {
            lemma_seeded_in_bounds(l, n, 0, Seq::<nat>::empty(), seq![add_read(0, 0)]);
        } else if order == 1 {
            if n == 2 {
                lemma_seeded_in_bounds(
                    l,
                    n,
                    2,
                    seq![0nat, 1nat],
                    seq![add_read(0, 0), add_read(1, 1), add_read(2, 2)],
                );
            } else {
                lemma_seeded_in_bounds(l, n, 2, seq![m as nat], first_order_reads(n, m as nat));
            }
        } else {
            lemma_small_taylorlen(n, 4);
            lemma_taylorlen_step(n, 2);
            lemma_taylorlen_step(n, 3);
            lemma_taylorlen_step(n, 4);
            lemma_small_taylorlen(n, 1);
            crate::taylor::lemma_binom_one(n + 1);
            let c2 = run_len(n, 2, 0);
            let c3 = run_len(n, 3, 0);
            let tu = launch_tuple(l);
            if m < c2 {
                assert(tier_entry(n, 2, m - 0, l));
                lemma_seeded_in_bounds(l, n, 2, tu, tier_reads(n, 2, tu));
            } else if m < c2 + c3 {
                assert(order >= 3);
                assert(tier_entry(n, 3, m - c2, l));
                lemma_seeded_in_bounds(l, n, 3, tu, tier_reads(n, 3, tu));
            } else {
                assert(order >= 4);
                assert(tier_entry(n, 4, m - (c2 + c3), l));
                lemma_seeded_in_bounds(l, n, 4, tu, tier_reads(n, 4, tu));
            }
        }
    }
}

/// Every launch of a potential plan stays inside its buffers: the input of
/// the layout's values, the expansion block, and the energy-and-potentials
/// output.
pub proof fn law_potential_plan_in_bounds(vars: Vars, deps: u32, plan: Seq<Launch>)
    requires
        spec_potential_channels(spec_input_len(vars)) is Some,
        deps_have(deps, Dependency::GRADIENT_BIT) ==> spec_input_len(vars) == 10 || spec_input_len(
            vars,
        ) == 20,
        spec_potential_plan(vars, deps, plan),
    ensures
        plan_in_bounds(
            plan,
            spec_input_len(vars),
            spec_input_len(vars),
            spec_potential_len(vars),
        ),
{
    let n = spec_input_len(vars);
    let (npot, inpos) = spec_potential_channels(n)->Some_0;
    let nspin: nat = if n == 20 {
        2
    } else {
        1
    };
    let out = spec_potential_len(vars);
    vstd::arithmetic::power2::lemma2_to64();
    assert(npot < out);
    let dens = plan.take(npot as int);
    assert forall|m: int| 0 <= m < plan.len() implies launch_in_bounds(
        #[trigger] plan[m],
        n,
        n,
        out,
    ) by {
        let l = plan[m];
        if m < npot {
            assert(l == dens[m]);
            assert(seeded_launch(
                dens[m],
                n,
                1,
                seq![(m * inpos) as nat],
                density_potential_reads(m as nat, npot),
            ));
            assert(m * inpos < n) by {
                if m == 1 {
                    assert(m * inpos == inpos);
                } else {
                    assert(m == 0);
                }
            }
            lemma_seeded_in_bounds(
                l,
                n,
                1,
                seq![(m * inpos) as nat],
                density_potential_reads(m as nat, npot),
            );
        } else {
            let k = m - npot;
            let j = k / 3;
            let dir = k % 3;
            assert(m == npot + 3 * j + dir);
            assert(gradient_launch(plan[npot + 3 * j + dir], nspin, j as nat, dir as nat));
            assert forall|c: int| 0 <= c < l.copies@.len() implies (#[trigger] l.copies@[c]).from
                < n && l.copies@[c].to < n * 4 by {
                if c >= 8 {
                    assert(l.copies@[c] == spin_copies(10, dir as nat)[c - 8]);
                } else {
                    assert(l.copies@[c] == spin_copies(0, dir as nat)[c]);
                }
            }
        }
    }
}


/// Number of entries of the upper triangle of a symmetric 3x3 matrix in
/// the rows before row `r`.
pub open spec fn entries_before_row(r: nat) -> nat
    decreases r,
{
    if r == 0 {
        0
    } else {
        entries_before_row((r - 1) as nat) + (3 - (r - 1)) as nat
    }
}

/// Position, in a layout with gradient and Hessian, of the second
/// derivative of the density along the axes `a` and `b` (0 to 2): after the
/// density and the three gradient components comes the upper triangle of the
/// symmetric Hessian, row by row (`xx xy xz yy yz zz`).
pub open spec fn hessian_position(a: nat, b: nat) -> nat {
    let r = if a <= b { a } else { b };
    let c = if a <= b { b } else { a };
    4 + entries_before_row(r) + (c - r) as nat
}

/// The nine Hessian positions, entry by entry.
proof fn lemma_hessian_positions()
    ensures
        hessian_position(0, 0) == 4,
        hessian_position(0, 1) == 5,
        hessian_position(0, 2) == 6,
        hessian_position(1, 0) == 5,
        hessian_position(1, 1) == 7,
        hessian_position(1, 2) == 8,
        hessian_position(2, 0) == 6,
        hessian_position(2, 1) == 8,
        hessian_position(2, 2) == 9,
{
    assert(entries_before_row(0) == 0);
    assert(entries_before_row(1) == 3);
    assert(entries_before_row(2) == 5);
}

/// The gradient launch along the axis `dir` for spin channel `j` fills each
/// spin channel `k` (ten values apart) with its density and gradient
/// components, and gives each of them its derivative along `dir`: the
/// gradient component `dir` for the density, the Hessian entry of axes
/// `src - 1` and `dir` for gradient component `src`; it seeds the second
/// direction on the gradient component `dir` of channel `j`.
pub proof fn law_gradient_pass_reads_symmetric_hessian(
    l: Launch,
    nspin: nat,
    j: nat,
    dir: nat,
    k: int,
    src: int,
)
    requires
        gradient_launch(l, nspin, j, dir),
        nspin == 1 || nspin == 2,
        j < nspin,
        0 <= k < nspin,
        dir < 3,
        1 <= src <= 3,
    ensures
        l.copies@.len() == 8 * nspin,
        l.copies@[8 * k] == (CopyIn { to: (10 * k * 4) as usize, from: (10 * k) as usize }),
        l.copies@[8 * k + 1] == (CopyIn {
            to: (10 * k * 4 + 1) as usize,
            from: (10 * k + 1 + dir) as usize,
        }),
        l.copies@[8 * k + 2 * src] == (CopyIn {
            to: ((10 * k + src) * 4) as usize,
            from: (10 * k + src) as usize,
        }),
        l.copies@[8 * k + 2 * src + 1] == (CopyIn {
            to: ((10 * k + src) * 4 + 1) as usize,
            from: (10 * k + hessian_position((src - 1) as nat, dir)) as usize,
        }),
        l.seeds@ == seq![((1 + dir + 10 * j) * 4 + 2) as usize],
{
    lemma_hessian_positions();
    assert(hessian_position((src - 1) as nat, dir) == hess_slot(src as nat, dir));
    let sc = spin_copies((10 * k) as nat, dir);
    if nspin == 2 {
        let all = spin_copies(0, dir) + spin_copies(10, dir);
        if k == 1 {
            assert(all[8 * k + 2 * src] == spin_copies(10, dir)[2 * src]);
            assert(all[8 * k + 2 * src + 1] == spin_copies(10, dir)[2 * src + 1]);
            assert(all[8 * k] == spin_copies(10, dir)[0]);
            assert(all[8 * k + 1] == spin_copies(10, dir)[1]);
        } else {
            assert(all[2 * src] == spin_copies(0, dir)[2 * src]);
            assert(all[2 * src + 1] == spin_copies(0, dir)[2 * src + 1]);
            assert(all[0] == spin_copies(0, dir)[0]);
            assert(all[1] == spin_copies(0, dir)[1]);
        }
    }
    if src == 1 {
        assert(sc[2] == CopyIn { to: ((1 + 10 * k) * 4) as usize, from: (1 + 10 * k) as usize });
    } else if src == 2 {
        assert(sc[4] == CopyIn { to: ((2 + 10 * k) * 4) as usize, from: (2 + 10 * k) as usize });
    } else {
        assert(sc[6] == CopyIn { to: ((3 + 10 * k) * 4) as usize, from: (3 + 10 * k) as usize });
    }
}

/// Some read of `plan` adds its value to the output slot `s`.
pub open spec fn slot_added(plan: Seq<Launch>, s: int) -> bool {
    exists|m: int, p: int| #[trigger]
        is_read(plan, m, p) && !plan[m].reads@[p].subtract && plan[m].reads@[p].to == s
}

/// Where a read of a potential plan lands: the density launch of channel `m`
/// adds the channel's potential at `m + 1` and, for the last channel, the
/// energy at 0; a gradient launch subtracts from the potential of its
/// channel.
proof fn lemma_potential_read(vars: Vars, deps: u32, plan: Seq<Launch>, m: int, p: int)
    requires
        spec_potential_channels(spec_input_len(vars)) is Some,
        deps_have(deps, Dependency::GRADIENT_BIT) ==> spec_input_len(vars) == 10 || spec_input_len(
            vars,
        ) == 20,
        spec_potential_plan(vars, deps, plan),
        is_read(plan, m, p),
    ensures
        ({
            let npot = spec_potential_channels(spec_input_len(vars))->Some_0.0;
            let r = plan[m].reads@[p];
            &&& m < npot ==> !r.subtract && p <= 1 && (p == 0 ==> r.to == m + 1) && (p == 1 ==> m
                == npot - 1 && r.to == 0)
            &&& m >= npot ==> r.subtract && p == 0 && 1 <= r.to <= npot
        }),
{
    let n = spec_input_len(vars);
    let (npot, inpos) = spec_potential_channels(n)->Some_0;
    let nspin: nat = if n == 20 {
        2
    } else {
        1
    };
    let dens = plan.take(npot as int);
    if m < npot {
        assert(plan[m] == dens[m]);
        assert(seeded_launch(
            dens[m],
            n,
            1,
            seq![(m * inpos) as nat],
            density_potential_reads(m as nat, npot),
        ));
    } else {
        assert(deps_have(deps, Dependency::GRADIENT_BIT));
        let k = m - npot;
        let j = k / 3;
        let dir = k % 3;
        assert(m == npot + 3 * j + dir);
        assert(gradient_launch(plan[npot + 3 * j + dir], nspin, j as nat, dir as nat));
    }
}

/// The output of a potential evaluation: the density launches write the
/// energy and the potential of each spin channel, each exactly once, and
/// the gradient launches only take the divergence terms off the
/// potentials; nothing lands past the last potential.
pub proof fn law_potential_plan_writes_energy_and_potentials(
    vars: Vars,
    deps: u32,
    plan: Seq<Launch>,
)
    requires
        spec_potential_channels(spec_input_len(vars)) is Some,
        deps_have(deps, Dependency::GRADIENT_BIT) ==> spec_input_len(vars) == 10 || spec_input_len(
            vars,
        ) == 20,
        spec_potential_plan(vars, deps, plan),
    ensures
        ({
            let npot = spec_potential_channels(spec_input_len(vars))->Some_0.0;
            &&& forall|s: int| 0 <= s <= npot ==> #[trigger] slot_added(plan, s)
            &&& forall|m1: int, p1: int, m2: int, p2: int|
                #[trigger] is_read(plan, m1, p1) && #[trigger] is_read(plan, m2, p2)
                    && !plan[m1].reads@[p1].subtract && !plan[m2].reads@[p2].subtract
                    && plan[m1].reads@[p1].to == plan[m2].reads@[p2].to ==> m1 == m2 && p1 == p2
            &&& forall|m: int, p: int|
                #[trigger] is_read(plan, m, p) && plan[m].reads@[p].subtract ==> 1
                    <= plan[m].reads@[p].to <= npot
            &&& forall|m: int, p: int| #[trigger]
                is_read(plan, m, p) ==> plan[m].reads@[p].to <= npot
        }),
{
    let n = spec_input_len(vars);
    let (npot, inpos) = spec_potential_channels(n)->Some_0;
    let dens = plan.take(npot as int);
    assert forall|s: int| 0 <= s <= npot implies #[trigger] slot_added(plan, s) by {
        let m = if s == 0 {
            npot - 1
        } else {
            s - 1
        };
        let p = if s == 0 {
            1int
        } else {
            0int
        };
        assert(plan[m] == dens[m]);
        assert(seeded_launch(
            dens[m],
            n,
            1,
            seq![(m * inpos) as nat],
            density_potential_reads(m as nat, npot),
        ));
        assert(is_read(plan, m, p));
        lemma_potential_read(vars, deps, plan, m, p);
    }
    assert forall|m1: int, p1: int, m2: int, p2: int|
        #[trigger] is_read(plan, m1, p1) && #[trigger] is_read(plan, m2, p2)
            && !plan[m1].reads@[p1].subtract && !plan[m2].reads@[p2].subtract
            && plan[m1].reads@[p1].to == plan[m2].reads@[p2].to implies m1 == m2 && p1 == p2 by {
        lemma_potential_read(vars, deps, plan, m1, p1);
        lemma_potential_read(vars, deps, plan, m2, p2);
    }
    assert forall|m: int, p: int| #[trigger] is_read(plan, m, p) implies plan[m].reads@[p].to
        <= npot && (plan[m].reads@[p].subtract ==> 1 <= plan[m].reads@[p].to <= npot) by {
        lemma_potential_read(vars, deps, plan, m, p);
    }
}


/// The launch input block for the mixed derivative along `tuple` at Taylor
/// order `order` on `inlen` variables: every constant coefficient taken from
/// the input, the `v`-th Taylor direction seeded on variable `tuple[v]`.
pub fn derivative_launch(inlen: usize, order: u32, tuple: &Vec<usize>) -> (l: Launch)
    requires
        order <= 6,
        tuple@.len() <= order,
        forall|v: int| 0 <= v < tuple@.len() ==> #[trigger] tuple@[v] < inlen,
        inlen * vstd::arithmetic::power2::pow2(order as nat) <= usize::MAX,
    ensures
        seeded_launch(
            l,
            inlen as nat,
            order as nat,
            tuple@.map_values(|x: usize| x as nat),
            Seq::<ReadOut>::empty(),
        ),
{
    proof {
        vstd::arithmetic::power2::lemma2_to64();
        vstd::bits::lemma_usize_shl_is_mul(1, order as usize);
    }
    let size: usize = 1usize << (order as usize);
    let ghost tn = tuple@.map_values(|x: usize| x as nat);
    let mut seeds: Vec<usize> = Vec::new();
    let mut v: usize = 0;
    while v < tuple.len()
        invariant
            v <= tuple@.len() <= order <= 6,
            size == vstd::arithmetic::power2::pow2(order as nat),
            inlen * size <= usize::MAX,
            forall|w: int| 0 <= w < tuple@.len() ==> #[trigger] tuple@[w] < inlen,
            tn == tuple@.map_values(|x: usize| x as nat),
            seeds@ == tuple_seeds(tn, size as nat).take(v as int),
        decreases tuple@.len() - v,
    {
        proof {
            vstd::arithmetic::power2::lemma2_to64();
            vstd::arithmetic::power2::lemma_pow2_strictly_increases(v as nat, order as nat);
            vstd::bits::lemma_usize_shl_is_mul(1, v);
            let x = tuple@[v as int];
            let p = vstd::arithmetic::power2::pow2(v as nat);
            assert(x * size + p < inlen * size) by (nonlinear_arith)
                requires
                    x + 1 <= inlen,
                    p < size,
            ;
        }
        let bit: usize = 1usize << v;
        seeds.push(tuple[v] * size + bit);
        v = v + 1;
        proof {
            assert(seeds@ =~= tuple_seeds(tn, size as nat).take(v as int));
        }
    }
    proof {
        assert(tuple_seeds(tn, size as nat).take(v as int) =~= tuple_seeds(tn, size as nat));
    }
    Launch { order, copies: constant_copies_vec(inlen, size), seeds, reads: Vec::new() }
}

/// The launch plan of an evaluation of `f` with an input buffer of
/// `input_len` values and an output buffer of `output_len` values, after the
/// checks of `validate_eval`: in partial-derivatives mode the launches that
/// fill the Taylor layout, in potential mode the density and gradient passes,
/// in contracted mode the one launch on the whole expansion block. Every
/// launch stays inside the buffers.
pub fn eval_plan(f: &Functional, input_len: usize, output_len: usize) -> (r: Result<
    Vec<Launch>,
    XcError,
>)
    requires
        f.mode == Mode::Contracted ==> f.order < usize::BITS && spec_input_len(f.vars)
            * vstd::arithmetic::power2::pow2(f.order as nat) <= usize::MAX,
    ensures
        spec_validate_eval(*f, input_len, output_len) is Err ==> r == Err::<Vec<Launch>, XcError>(
            spec_validate_eval(*f, input_len, output_len)->Err_0,
        ),
        spec_validate_eval(*f, input_len, output_len) is Ok ==> {
            let n = spec_input_len(f.vars);
            match f.mode {
                Mode::PartialDerivatives => r matches Ok(plan) && spec_partial_plan(
                    n,
                    f.order as nat,
                    plan@,
                ) && plan_in_bounds(plan@, n, input_len as nat, output_len as nat)
                    && forall|s: int| 0 <= s < output_len ==> #[trigger] slot_filled(plan@, s),
                Mode::Potential => if spec_potential_channels(n) is None {
                    r == Err::<Vec<Launch>, XcError>(
                        XcError::InvalidVars {
                            vars: f.vars,
                            required: Dependency { bits: Dependency::DENSITY_BIT },
                        },
                    )
                } else {
                    r matches Ok(plan) && spec_potential_plan(
                        f.vars,
                        spec_dependencies(f.functionals@),
                        plan@,
                    ) && plan_in_bounds(plan@, n, input_len as nat, output_len as nat)
                },
                Mode::Contracted => r matches Ok(plan) && plan@.len() == 1 && contracted_launch(
                    plan@[0],
                    n,
                    f.order as nat,
                ) && plan_in_bounds(plan@, n, input_len as nat, output_len as nat),
                Mode::Unset => false,
            }
        },
{
    match f.validate_eval(input_len, output_len) {
        Ok(()) => {},
        Err(e) => {
            return Err(e);
        },
    }
    let ghost n = spec_input_len(f.vars);
    match f.mode {
        Mode::PartialDerivatives => {
            let plan = match partial_derivative_plan(f.vars, f.order) {
                Ok(p) => p,
                Err(e) => {
                    return Err(e);
                },
            };
            proof {
                law_partial_plan_in_bounds(n, f.order as nat, plan@);
                law_partial_plan_fills_taylor_layout(n, f.order as nat, plan@);
                lemma_small_taylorlen(n, f.order as nat);
            }
            Ok(plan)
        },
        Mode::Potential => {
            let plan = potential_plan(f);
            proof {
                let deps = spec_dependencies(f.functionals@);
                if plan is Ok {
                    law_potential_plan_in_bounds(f.vars, deps, plan->Ok_0@);
                }
            }
            plan
        },
        Mode::Contracted => {
            proof {
                vstd::arithmetic::power2::lemma2_to64();
            }
            let launch = match contracted_plan(f, input_len, output_len) {
                Ok(l) => l,
                Err(e) => {
                    return Err(e);
                },
            };
            let mut plan: Vec<Launch> = Vec::new();
            plan.push(launch);
            proof {
                assert(plan@[0] == launch);
            }
            Ok(plan)
        },
        Mode::Unset => Err(XcError::NotConfigured),
    }
}

} // verus!
