use vstd::prelude::*;

verus! {

/// The binomial coefficient `n` over `k`, by Pascal's rule.
pub open spec fn binom(n: nat, k: nat) -> nat
    decreases n,
{
    if k == 0 {
        1
    } else if n == 0 {
        0
    } else {
        binom((n - 1) as nat, (k - 1) as nat) + binom((n - 1) as nat, k)
    }
}

/// Number of coefficients of a Taylor expansion in `n` variables up to
/// order `k`: the number of monomials of degree at most `k`.
pub open spec fn spec_taylorlen(n: nat, k: nat) -> nat {
    binom(n + k, k)
}

/// Number of monomials of degree exactly `t` in `n` variables, summed over
/// the degrees `0..=k`.
pub open spec fn degree_count_sum(n: nat, k: nat) -> nat
    decreases k,
{
    let here = binom((n + k - 1) as nat, k);
    if k == 0 {
        here
    } else {
        degree_count_sum(n, (k - 1) as nat) + here
    }
}

/// Sum of `binom(r + m, m)` over `r < len`.
pub open spec fn diagonal_sum(len: nat, m: nat) -> nat
    decreases len,
{
    if len == 0 {
        0
    } else {
        diagonal_sum((len - 1) as nat, m) + binom((len - 1 + m) as nat, m)
    }
}

pub proof fn lemma_binom_above(n: nat, k: nat)
    requires
        k > n,
    ensures
        binom(n, k) == 0,
    decreases n,
{
    if n > 0 {
        lemma_binom_above((n - 1) as nat, (k - 1) as nat);
        lemma_binom_above((n - 1) as nat, k);
    }
}

pub proof fn lemma_binom_diag(n: nat)
    ensures
        binom(n, n) == 1,
    decreases n,
{
    if n > 0 {
        lemma_binom_diag((n - 1) as nat);
        lemma_binom_above((n - 1) as nat, n);
    }
}

pub proof fn lemma_binom_one(n: nat)
    ensures
        binom(n, 1) == n,
    decreases n,
{
    if n > 0 {
        lemma_binom_one((n - 1) as nat);
        assert(binom((n - 1) as nat, 0) == 1);
        assert(binom(n, 1) == binom((n - 1) as nat, 0) + binom((n - 1) as nat, 1));
    }
}

/// `k * C(n, k) == n * C(n - 1, k - 1)`.
pub proof fn lemma_absorb(n: nat, k: nat)
    requires
        n >= 1,
        k >= 1,
    ensures
        k * binom(n, k) == n * binom((n - 1) as nat, (k - 1) as nat),
    decreases n,
{
    if n == 1 {
        if k == 1 {
            assert(binom(1, 1) == 1) by { lemma_binom_diag(1); }
            assert(binom(0, 0) == 1);
        } else {
            lemma_binom_above(1, k);
            lemma_binom_above(0, (k - 1) as nat);
            assert(k * 0 == 0 && 1 * 0 == 0) by (nonlinear_arith);
        }
    } else {
        let a = binom((n - 1) as nat, (k - 1) as nat);
        let b = binom((n - 1) as nat, k);
        assert(binom(n, k) == a + b);
        lemma_absorb((n - 1) as nat, k);
        // k * b == (n - 1) * C(n - 2, k - 1)
        if k == 1 {
            assert(a == 1);
            lemma_binom_one((n - 1) as nat);
            assert(k * binom(n, k) == a + b);
            assert(b == n - 1);
            assert(k * binom(n, k) == n * a) by (nonlinear_arith)
                requires
                    k == 1,
                    a == 1,
                    b == n - 1,
                    k * binom(n, k) == a + b,
            ;
        } else {
            lemma_absorb((n - 1) as nat, (k - 1) as nat);
            let c = binom((n - 2) as nat, (k - 2) as nat);
            let d = binom((n - 2) as nat, (k - 1) as nat);
            assert(a == c + d);
            assert((k - 1) * a == (n - 1) * c);
            assert(k * b == (n - 1) * d);
            assert(k * binom(n, k) == n * a) by (nonlinear_arith)
                requires
                    binom(n, k) == a + b,
                    a == c + d,
                    (k - 1) * a == (n - 1) * c,
                    k * b == (n - 1) * d,
            ;
        }
    }
}

/// `(i + 1) * C(n, i + 1) == (n - i) * C(n, i)`.
pub proof fn lemma_step(n: nat, i: nat)
    ensures
        (i + 1) * binom(n, i + 1) == (n - i) * binom(n, i),
{
    if n == 0 {
        lemma_binom_above(0, i + 1);
        if i > 0 {
            lemma_binom_above(0, i);
        }
    } else {
        lemma_absorb(n, i + 1);
        let x = binom((n - 1) as nat, i);
        if i == 0 {
            assert((i + 1) * binom(n, i + 1) == n * x);
            assert(x == 1);
            assert(binom(n, 0) == 1);
            assert((i + 1) * binom(n, i + 1) == (n - i) * binom(n, i)) by (nonlinear_arith)
                requires
                    (i + 1) * binom(n, i + 1) == n * x,
                    x == 1,
                    binom(n, i) == 1,
                    i == 0,
            ;
        } else {
            lemma_absorb(n, i);
            let y = binom((n - 1) as nat, (i - 1) as nat);
            assert(binom(n, i) == y + x);
            assert((i + 1) * binom(n, i + 1) == (n - i) * binom(n, i)) by (nonlinear_arith)
                requires
                    (i + 1) * binom(n, i + 1) == n * x,
                    i * binom(n, i) == n * y,
                    binom(n, i) == y + x,
            ;
        }
    }
}

/// `C(n, k) == C(n, n - k)`.
pub proof fn lemma_symmetric(n: nat, k: nat)
    requires
        k <= n,
    ensures
        binom(n, k) == binom(n, (n - k) as nat),
    decreases n,
{
    if k == 0 || k == n {
        lemma_binom_diag(n);
    } else {
        lemma_symmetric((n - 1) as nat, (k - 1) as nat);
        lemma_symmetric((n - 1) as nat, k);
    }
}

/// `C(m, k) <= C(m + 1, k)`.
pub proof fn lemma_binom_grows_with_n(m: nat, k: nat)
    ensures
        binom(m, k) <= binom(m + 1, k),
{
}

/// `C(n + i, i) <= C(n + i + 1, i + 1)`.
pub proof fn lemma_diag_step(n: nat, i: nat)
    ensures
        binom(n + i, i) <= binom(n + i + 1, i + 1),
{
    assert(binom(n + i + 1, i + 1) == binom(n + i, i) + binom(n + i, i + 1));
}

/// `C(n + i, i) <= C(n + k, k)` for `i <= k`.
pub proof fn lemma_diag_monotone(n: nat, i: nat, k: nat)
    requires
        i <= k,
    ensures
        binom(n + i, i) <= binom(n + k, k),
    decreases k - i,
{
    if i < k {
        lemma_diag_step(n, i);
        lemma_diag_monotone(n, i + 1, k);
    }
}

/// `C(n, j) <= C(n, k)` for `j <= k <= n - k`.
pub proof fn lemma_rising_half(n: nat, j: nat, k: nat)
    requires
        j <= k,
        k + k <= n,
    ensures
        binom(n, j) <= binom(n, k),
    decreases k - j,
{
    if j < k {
        lemma_step(n, j);
        let x = binom(n, j + 1);
        let y = binom(n, j);
        assert(y <= x) by (nonlinear_arith)
            requires
                (j + 1) * x == (n - j) * y,
                j + 1 <= n - j,
        ;
        lemma_rising_half(n, j + 1, k);
    }
}

/// Hockey-stick identity along the lower index:
/// `sum over t <= k of C(n - 1 + t, t) == C(n + k, k)`.
pub proof fn lemma_degree_count_sum(n: nat, k: nat)
    requires
        n >= 1,
    ensures
        degree_count_sum(n, k) == spec_taylorlen(n, k),
    decreases k,
{
    if k == 0 {
    } else {
        lemma_degree_count_sum(n, (k - 1) as nat);
        // C(n+k-1, k-1) + C(n+k-1, k) == C(n+k, k)
        assert(binom(n + k, k) == binom((n + k - 1) as nat, (k - 1) as nat) + binom(
            (n + k - 1) as nat,
            k,
        ));
    }
}

/// Hockey-stick identity along the upper index:
/// `sum over r < len of C(r + m, m) == C(len + m, m + 1)`.
pub proof fn lemma_diagonal_sum(len: nat, m: nat)
    ensures
        diagonal_sum(len, m) == binom(len + m, m + 1),
    decreases len,
{
    if len == 0 {
        lemma_binom_above(m, m + 1);
    } else {
        lemma_diagonal_sum((len - 1) as nat, m);
        assert(binom(len + m, m + 1) == binom((len - 1 + m) as nat, m) + binom(
            (len - 1 + m) as nat,
            m + 1,
        ));
    }
}

/// `C(n, k) <= 2^n`.
pub proof fn lemma_binom_le_pow2(n: nat, k: nat)
    ensures
        binom(n, k) <= vstd::arithmetic::power2::pow2(n),
    decreases n,
{
    vstd::arithmetic::power2::lemma_pow2_pos(n);
    if k > 0 && n > 0 {
        lemma_binom_le_pow2((n - 1) as nat, (k - 1) as nat);
        lemma_binom_le_pow2((n - 1) as nat, k);
        vstd::arithmetic::power2::lemma_pow2_unfold(n);
    }
}

/// The Taylor length of a layout at an order up to four fits comfortably.
pub proof fn lemma_small_taylorlen(n: nat, k: nat)
    requires
        1 <= n <= 20,
        k <= 4,
    ensures
        k * binom(n + k, k) <= 0x4000000,
        binom(n + k, k) <= 0x1000000,
{
    lemma_binom_le_pow2(n + k, k);
    vstd::arithmetic::power2::lemma2_to64();
    if n + k < 24 {
        vstd::arithmetic::power2::lemma_pow2_strictly_increases(n + k, 24);
    }
    let b = binom(n + k, k);
    assert(k * b <= 4 * 0x1000000) by (nonlinear_arith)
        requires
            k <= 4,
            b <= 0x1000000,
    ;
}

/// Number of Taylor coefficients in `n` variables up to order `k`, that is
/// the binomial coefficient `n + k` over `k`.
pub fn taylorlen(n: usize, k: usize) -> (r: usize)
    requires
        n + k <= usize::MAX,
        k * binom((n + k) as nat, k as nat) <= usize::MAX,
    ensures
        r == spec_taylorlen(n as nat, k as nat),
{
    let mut res: usize = 1;
    let mut i: usize = 0;
    while i < k
        invariant
            i <= k,
            n + k <= usize::MAX,
            k * binom((n + k) as nat, k as nat) <= usize::MAX,
            res == binom((n + i) as nat, i as nat),
        decreases k - i,
    {
        proof {
            lemma_step((n + i + 1) as nat, i as nat);
            lemma_absorb((n + i + 1) as nat, (i + 1) as nat);
            lemma_diag_monotone(n as nat, (i + 1) as nat, k as nat);
            let x = binom((n + i + 1) as nat, (i + 1) as nat);
            let big = binom((n + k) as nat, k as nat);
            assert((i + 1) * x <= k * big) by {
                vstd::arithmetic::mul::lemma_mul_upper_bound((i + 1) as int, k as int, x as int, big as int);
            }
            assert(res * (n + i + 1) == (i + 1) * x) by (nonlinear_arith)
                requires
                    (i + 1) * x == (n + i + 1) * binom((n + i) as nat, i as nat),
                    res == binom((n + i) as nat, i as nat),
            ;
            vstd::arithmetic::div_mod::lemma_div_multiples_vanish(x as int, (i + 1) as int);
        }
        res = res * (n + i + 1) / (i + 1);
        i = i + 1;
    }
    res
}

/// Whether `taylorlen(n, k)` can be computed in machine integers: `n + k`
/// and `k` times the Taylor length fit in a `usize`.
pub fn taylorlen_fits(n: usize, k: usize) -> (r: bool)
    ensures
        r == (n + k <= usize::MAX && k * binom((n + k) as nat, k as nat) <= usize::MAX),
{
    if n > usize::MAX - k {
        return false;
    }
    let mut res: usize = 1;
    let mut i: usize = 0;
    while i < k
        invariant
            i <= k,
            n + k <= usize::MAX,
            res == binom((n + i) as nat, i as nat),
        decreases k - i,
    {
        proof {
            lemma_step((n + i + 1) as nat, i as nat);
            lemma_absorb((n + i + 1) as nat, (i + 1) as nat);
        }
        let ghost x = binom((n + i + 1) as nat, (i + 1) as nat);
        proof {
            assert(res * (n + i + 1) == (i + 1) * x) by (nonlinear_arith)
                requires
                    (i + 1) * x == (n + i + 1) * binom((n + i) as nat, i as nat),
                    res == binom((n + i) as nat, i as nat),
            ;
        }
        match res.checked_mul(n + i + 1) {
            Some(prod) => {
                proof {
                    vstd::arithmetic::div_mod::lemma_div_multiples_vanish(x as int, (i + 1) as int);
                }
                res = prod / (i + 1);
            },
            None => {
                proof {
                    lemma_diag_monotone(n as nat, (i + 1) as nat, k as nat);
                    let big = binom((n + k) as nat, k as nat);
                    vstd::arithmetic::mul::lemma_mul_upper_bound(
                        (i + 1) as int,
                        k as int,
                        x as int,
                        big as int,
                    );
                }
                return false;
            },
        }
        i = i + 1;
    }
    match k.checked_mul(res) {
        Some(_) => true,
        None => false,
    }
}

/// The binomial coefficient `n` over `k`, computed on the shorter side.
fn binomial(n: usize, k: usize) -> (r: usize)
    requires
        k * binom(n as nat, k as nat) <= usize::MAX,
    ensures
        r == binom(n as nat, k as nat),
{
    if k > n {
        proof {
            lemma_binom_above(n as nat, k as nat);
        }
        return 0;
    }
    let kk: usize = if k < n - k {
        k
    } else {
        n - k
    };
    proof {
        lemma_symmetric(n as nat, k as nat);
    }
    let mut acc: usize = 1;
    let mut i: usize = 0;
    while i < kk
        invariant
            i <= kk,
            kk <= k <= n,
            kk + kk <= n,
            binom(n as nat, kk as nat) == binom(n as nat, k as nat),
            k * binom(n as nat, k as nat) <= usize::MAX,
            acc == binom(n as nat, i as nat),
        decreases kk - i,
    {
        proof {
            lemma_step(n as nat, i as nat);
            lemma_rising_half(n as nat, (i + 1) as nat, kk as nat);
            let x = binom(n as nat, (i + 1) as nat);
            let big = binom(n as nat, k as nat);
            assert((i + 1) * x <= k * big) by {
                vstd::arithmetic::mul::lemma_mul_upper_bound((i + 1) as int, k as int, x as int, big as int);
            }
            assert(acc * (n - i) == (i + 1) * x) by (nonlinear_arith)
                requires
                    (i + 1) * x == (n - i) * binom(n as nat, i as nat),
                    acc == binom(n as nat, i as nat),
            ;
            vstd::arithmetic::div_mod::lemma_div_multiples_vanish(x as int, (i + 1) as int);
        }
        acc = acc * (n - i) / (i + 1);
        i = i + 1;
    }
    acc
}

/// Number of Taylor coefficients of degree at most `max_order` in `inlen`
/// variables, counted degree by degree: the slot at which the coefficients
/// of degree `max_order + 1` start.
pub fn inlen_triangle_count(inlen: usize, max_order: usize) -> (r: usize)
    requires
        inlen >= 1,
        inlen + max_order <= usize::MAX,
        max_order * binom((inlen + max_order) as nat, max_order as nat) <= usize::MAX,
    ensures
        r == degree_count_sum(inlen as nat, max_order as nat),
        r == spec_taylorlen(inlen as nat, max_order as nat),
{
    let ghost big = binom((inlen + max_order) as nat, max_order as nat);
    proof {
        lemma_degree_count_sum(inlen as nat, max_order as nat);
        if max_order > 0 {
            assert(big <= max_order * big) by (nonlinear_arith)
                requires
                    max_order >= 1,
            ;
        } else {
            assert(big == 1);
        }
    }
    let mut total: usize = 0;
    let mut k: usize = 0;
    while k <= max_order
        invariant
            k <= max_order + 1,
            inlen >= 1,
            inlen + max_order <= usize::MAX,
            big == binom((inlen + max_order) as nat, max_order as nat),
            max_order * big <= usize::MAX,
            big <= usize::MAX,
            k == 0 ==> total == 0,
            k > 0 ==> total == degree_count_sum(inlen as nat, (k - 1) as nat),
        decreases max_order + 1 - k,
    {
        proof {
            lemma_binom_grows_with_n((inlen + k - 1) as nat, k as nat);
            lemma_diag_monotone(inlen as nat, k as nat, max_order as nat);
            let x = binom((inlen + k - 1) as nat, k as nat);
            vstd::arithmetic::mul::lemma_mul_upper_bound(k as int, max_order as int, x as int, big as int);
            lemma_degree_count_sum(inlen as nat, k as nat);
        }
        let c = binomial(inlen + k - 1, k);
        total = total + c;
        k = k + 1;
    }
    total
}

/// The Taylor-layout slots of all degrees up to `k`, counted degree by
/// degree, are exactly the coefficients of the expansion up to order `k`.
pub proof fn law_degree_counts_fill_taylorlen(n: nat, k: nat)
    requires
        n >= 1,
    ensures
        degree_count_sum(n, k) == spec_taylorlen(n, k),
{
    lemma_degree_count_sum(n, k);
}

} // verus!
